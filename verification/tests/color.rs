use shunt::color::{ColorAssigner, ConsoleColor};

#[test]
fn color_assigner_cycles_through_palette() {
    let mut assigner = ColorAssigner::new();
    let first_six: Vec<ConsoleColor> = (0..6).map(|_| assigner.assign()).collect();
    assert_eq!(
        first_six,
        vec![
            ConsoleColor::Green,
            ConsoleColor::Red,
            ConsoleColor::Cyan,
            ConsoleColor::Magenta,
            ConsoleColor::Yellow,
            ConsoleColor::Green,
        ]
    );
}
