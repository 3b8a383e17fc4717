use cli_toolbox::{err, Program, System, TermColor};

fn colored() {
    console::set_colors_enabled(true);
}

#[test]
fn every_color_has_its_escape_sequence() {
    colored();
    let colors = [
        (TermColor::Black, 30),
        (TermColor::Red, 31),
        (TermColor::Green, 32),
        (TermColor::Yellow, 33),
        (TermColor::Blue, 34),
        (TermColor::Magenta, 35),
        (TermColor::Cyan, 36),
        (TermColor::White, 37),
    ];
    for (color, code) in colors.iter() {
        let program = Program::builder("job").color(*color).action(|| {}).build();
        assert_eq!(
            program.print("hello").line,
            format!("\x1b[{}mjob> hello\x1b[0m", code)
        );
        assert_eq!(
            program.announcement(),
            Some(format!("\x1b[{}mjob Running...\x1b[0m", code))
        );
    }
}

#[test]
fn errors_are_red() {
    colored();
    let program = Program::builder("job").color(TermColor::Blue).action(|| {}).build();
    assert_eq!(program.err("broken"), "\x1b[31mjob Error> broken\x1b[0m");
    let system = System::builder("Tool").color(TermColor::Blue).build();
    assert_eq!(system.err(None), "\x1b[31mToolError> Error\x1b[0m");
    assert_eq!(err(None), "\x1b[31mError> Error\x1b[0m");
}

#[test]
fn menu_entries_are_colored_inside_their_cells() {
    colored();
    let mut system = System::builder("Tool").color(TermColor::Cyan).build();
    system.append_program(
        Program::builder("alpha").description("first").tag("x").tag("y").action(|| {}).build(),
    );
    let page = system.menu();
    assert_eq!(
        page.lines(),
        &vec![
            format!(
                "\x1b[36m{: <5}\x1b[0m \x1b[36m{: <30}\x1b[0m {}",
                "0)", "alpha", "first"
            ),
            "     Tags: \x1b[3mx, y\x1b[0m".to_string(),
        ]
    );
    let expected = format!(
        "{0: <5} {1: <30} {2}",
        console::Style::new().cyan().apply_to("0)"),
        console::Style::new().cyan().apply_to("alpha"),
        "first"
    );
    assert_eq!(page.lines()[0], expected);
}

#[test]
fn help_heading_and_names_are_colored() {
    colored();
    let mut system = System::builder("Tool").build();
    system.append_program(Program::builder("alpha").description("first").action(|| {}).build());
    assert_eq!(
        system.show_help(),
        vec![
            "\x1b[32m=== Tool Help ===\x1b[0m",
            "\x1b[32m\nalpha\x1b[0m",
            "  Description: first",
        ]
    );
    assert_eq!(system.prompt("Pick:"), "\x1b[32mPick:\x1b[0m");
    assert_eq!(system.input("1").echo, "\x1b[32mTool> 1\x1b[0m");
}
