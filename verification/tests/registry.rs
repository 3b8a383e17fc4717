use cli_toolbox::cli::system::CliError;
use cli_toolbox::{Program, System, TermColor};
use std::sync::atomic::{AtomicBool, AtomicUsize, Ordering};
use std::sync::Arc;

#[test]
fn test_system_builder() {
    let system = System::builder("Test System").use_defaults().build();

    assert_eq!(system.name(), "Test System");
    assert_eq!(system.get_sleep(), 100);
    assert!(!system.get_silence());
}

#[test]
fn test_program_builder() {
    let program = Program::builder("Test Program")
        .use_defaults()
        .description("A test program")
        .tag("test")
        .action(|| {})
        .build();

    assert_eq!(program.name(), "Test Program");
    assert_eq!(program.description(), "A test program");
    assert!(program.has_tag("test"));
}

#[test]
fn test_tag_system() {
    let mut system = System::builder("Test System").use_defaults().build();

    let prog1 = Program::builder("prog1")
        .use_defaults()
        .tag("test")
        .tag("example")
        .action(|| {})
        .build();

    let prog2 = Program::builder("prog2")
        .use_defaults()
        .tag("test")
        .action(|| {})
        .build();

    system.append_program(prog1);
    system.append_program(prog2);

    let tagged = system.programs_with_tag("test");
    assert_eq!(tagged.len(), 2);

    let all_tags = system.all_tags();
    assert_eq!(all_tags.len(), 2);
    assert!(all_tags.contains(&"test".to_string()));
    assert!(all_tags.contains(&"example".to_string()));
}

#[test]
fn test_error_handling() {
    let system = System::builder("Test System").use_defaults().build();

    // Test program not found
    let result = system.run_program(999, |_| {});
    assert!(matches!(result, Err(CliError::ProgramNotFound(_))));
}

#[test]
fn test_program_inheritance() {
    let mut system = System::builder("Test System")
        .use_defaults()
        .color(TermColor::Blue)
        .sleep(200)
        .silent(true)
        .build();

    system.add_program_with_inheritance("test".to_string(), || {});

    let program = &system.programs()[0];
    assert_eq!(program.get_sleep(), 200);
    assert!(program.get_silence());
}

#[test]
fn test_program_execution() {
    let executed = Arc::new(AtomicBool::new(false));
    let executed_clone = executed.clone();

    let program = Program::builder("Test Program")
        .use_defaults()
        .action(move || {
            executed_clone.store(true, Ordering::SeqCst);
        })
        .build();

    program.run(|line| println!("{}", line));
    assert!(executed.load(Ordering::SeqCst));
}

#[test]
fn test_system_help() {
    let mut system = System::builder("Test System").use_defaults().build();

    let program = Program::builder("Test Program")
        .use_defaults()
        .description("A test program")
        .tag("test")
        .action(|| {})
        .build();

    system.append_program(program);
    system.show_help();
}

#[test]
fn test_system_print() {
    let mut system = System::builder("Test System").use_defaults().build();

    system.print("Test message");
}

#[test]
fn test_system_err() {
    let system = System::builder("Test System").use_defaults().build();

    system.err(Some(&"Test error".to_string()));
}

#[test]
fn test_program_print() {
    let program = Program::builder("Test Program")
        .use_defaults()
        .action(|| {})
        .build();

    program.print("Test message");
}

#[test]
fn test_program_err() {
    let program = Program::builder("Test Program")
        .use_defaults()
        .action(|| {})
        .build();

    program.err("Test error");
}

#[test]
fn test_empty_program_list() {
    let system = System::builder("Test System").use_defaults().build();

    assert_eq!(system.programs().len(), 0);
    let tagged = system.programs_with_tag("test");
    assert_eq!(tagged.len(), 0);
    let all_tags = system.all_tags();
    assert_eq!(all_tags.len(), 0);
}

#[test]
fn test_duplicate_tags() {
    let mut system = System::builder("Test System").use_defaults().build();

    let program = Program::builder("Test Program")
        .use_defaults()
        .tag("test")
        .tag("test") // Duplicate tag
        .action(|| {})
        .build();

    system.append_program(program);
    let all_tags = system.all_tags();
    assert_eq!(all_tags.len(), 1); // Should only have one unique tag
    assert!(all_tags.contains(&"test".to_string()));
}

#[test]
fn test_program_name_collision() {
    let mut system = System::builder("Test System").use_defaults().build();

    let prog1 = Program::builder("test").use_defaults().action(|| {}).build();

    let prog2 = Program::builder("test") // Same name
        .use_defaults()
        .action(|| {})
        .build();

    system.append_program(prog1);
    system.append_program(prog2); // This should work, programs can have the same name

    assert_eq!(system.programs().len(), 2);
}

fn counting(counter: &Arc<AtomicUsize>) -> impl Fn() + 'static {
    let counter = counter.clone();
    move || {
        counter.fetch_add(1, Ordering::SeqCst);
    }
}

#[test]
fn registry_counts_every_appended_program() {
    let mut builder = System::builder("Count");
    for i in 0..5 {
        let name = format!("job{}", i);
        builder = builder.append_program(Program::builder(&name).action(|| {}).build());
    }
    let mut system = builder.build();
    assert_eq!(system.programs().len(), 5);
    system.append_program(Program::builder("late").action(|| {}).build());
    system.add_program_with_inheritance("later".to_string(), || {});
    assert_eq!(system.programs().len(), 7);
    assert_eq!(system.programs()[6].name(), "later");
    assert_eq!(system.programs()[0].name(), "job0");
}

#[test]
fn all_tags_is_sorted_union_without_duplicates() {
    let mut system = System::builder("Tags").build();
    system.append_program(
        Program::builder("a").tag("test").tag("example").action(|| {}).build(),
    );
    system.append_program(Program::builder("b").tag("test").action(|| {}).build());
    assert_eq!(system.all_tags(), vec!["example".to_string(), "test".to_string()]);

    system.append_program(
        Program::builder("c").tag("zeta").tag("Alpha").tag("é").tag("alpha").action(|| {}).build(),
    );
    let mut expected = vec!["example", "test", "zeta", "Alpha", "é", "alpha"]
        .into_iter()
        .map(String::from)
        .collect::<Vec<String>>();
    expected.sort_unstable();
    expected.dedup();
    assert_eq!(system.all_tags(), expected);
}

#[test]
fn builder_without_action_cannot_build() {
    let builder = Program::builder("idle").description("nothing to run").tag("x");
    assert!(!builder.is_ready());
    assert!(builder.try_build().is_none());

    let ready = Program::builder("busy").action(|| {});
    assert!(ready.is_ready());
    assert!(ready.try_build().is_some());
}

#[test]
fn run_invokes_the_action_once_per_call() {
    let counter = Arc::new(AtomicUsize::new(0));
    let program = Program::builder("count").action(counting(&counter)).build();
    assert_eq!(counter.load(Ordering::SeqCst), 0);
    program.run(|_| {});
    assert_eq!(counter.load(Ordering::SeqCst), 1);
    program.run(|_| {});
    program.invoke();
    assert_eq!(counter.load(Ordering::SeqCst), 3);
}

#[test]
fn second_action_replaces_the_first() {
    let first = Arc::new(AtomicUsize::new(0));
    let second = Arc::new(AtomicUsize::new(0));
    let program = Program::builder("twice")
        .action(counting(&first))
        .action(counting(&second))
        .build();
    program.run(|_| {});
    assert_eq!(first.load(Ordering::SeqCst), 0);
    assert_eq!(second.load(Ordering::SeqCst), 1);
}

#[test]
fn has_tag_is_exact_and_case_sensitive() {
    let program = Program::builder("t").tag("Test").action(|| {}).build();
    assert!(program.has_tag("Test"));
    assert!(!program.has_tag("test"));
    assert!(!program.has_tag("Tes"));
    assert!(!program.has_tag("Test "));
    assert!(!program.has_tag(""));
    let builder = Program::builder("t").tag("Test");
    assert!(builder.has_tag("Test"));
    assert!(!builder.has_tag("TEST"));
    assert_eq!(builder.get_tags(), &vec!["Test".to_string()]);
}

#[test]
fn use_defaults_keeps_tags_and_action() {
    let counter = Arc::new(AtomicUsize::new(0));
    let program = Program::builder("d")
        .color(TermColor::Red)
        .sleep(7)
        .silent(true)
        .description("text")
        .tag("kept")
        .action(counting(&counter))
        .use_defaults()
        .build();
    assert_eq!(program.get_color(), TermColor::Green);
    assert_eq!(program.get_sleep(), 0);
    assert!(!program.get_silence());
    assert_eq!(program.description(), "");
    assert_eq!(program.get_tags(), vec!["kept".to_string()]);
    assert_eq!(program.tags(), &vec!["kept".to_string()]);
    program.run(|_| {});
    assert_eq!(counter.load(Ordering::SeqCst), 1);
}

#[test]
fn tags_replaces_and_tag_appends() {
    let program = Program::builder("t")
        .tag("a")
        .tags(vec!["x".to_string(), "y".to_string()])
        .tag("x")
        .action(|| {})
        .build();
    assert_eq!(program.get_tags(), vec!["x".to_string(), "y".to_string(), "x".to_string()]);
}

#[test]
fn setters_change_one_setting() {
    let mut program = Program::builder("s").description("d").tag("t").action(|| {}).build();
    program.set_color(TermColor::Cyan);
    program.set_sleep(15);
    program.set_silence(true);
    assert_eq!(program.get_color(), TermColor::Cyan);
    assert_eq!(program.get_sleep(), 15);
    assert!(program.get_silence());
    assert_eq!(program.name(), "s");
    assert_eq!(program.description(), "d");
    assert!(program.has_tag("t"));

    let mut system = System::builder("sys").build();
    system.set_color(TermColor::Magenta);
    system.set_sleep(3);
    system.set_silence(true);
    assert_eq!(system.get_color(), TermColor::Magenta);
    assert_eq!(system.get_sleep(), 3);
    assert!(system.get_silence());
    assert_eq!(system.name(), "sys");
}

#[test]
fn inheritance_is_a_snapshot() {
    let mut system = System::builder("snap").color(TermColor::Blue).sleep(5).build();
    system.add_program_with_inheritance("first".to_string(), || {});
    system.set_color(TermColor::Red);
    system.set_sleep(9);
    system.set_silence(true);
    system.add_program_with_inheritance("second".to_string(), || {});
    let programs = system.programs();
    assert_eq!(programs[0].get_color(), TermColor::Blue);
    assert_eq!(programs[0].get_sleep(), 5);
    assert!(!programs[0].get_silence());
    assert_eq!(programs[0].description(), "");
    assert!(programs[0].tags().is_empty());
    assert_eq!(programs[1].get_color(), TermColor::Red);
    assert_eq!(programs[1].get_sleep(), 9);
    assert!(programs[1].get_silence());

    let built = System::builder("b")
        .sleep(1)
        .add_program_with_inheritance("early".to_string(), || {})
        .sleep(2)
        .add_program_with_inheritance("late".to_string(), || {})
        .build();
    assert_eq!(built.programs()[0].get_sleep(), 1);
    assert_eq!(built.programs()[1].get_sleep(), 2);
    assert_eq!(built.get_sleep(), 2);
}

#[test]
fn run_program_runs_the_program_at_the_index() {
    let first = Arc::new(AtomicUsize::new(0));
    let second = Arc::new(AtomicUsize::new(0));
    let mut system = System::builder("run").silent(true).build();
    system.add_program_with_inheritance("one".to_string(), counting(&first));
    system.add_program_with_inheritance("two".to_string(), counting(&second));
    assert!(matches!(system.run_program(1, |_| panic!("a silent program shows no line")), Ok(())));
    assert_eq!(first.load(Ordering::SeqCst), 0);
    assert_eq!(second.load(Ordering::SeqCst), 1);

    match system.run_program(2, |_| panic!("no program, no line")) {
        Err(CliError::ProgramNotFound(message)) => assert_eq!(message, "Index 2 out of bounds"),
        _ => panic!("index 2 has no program"),
    }
    assert_eq!(first.load(Ordering::SeqCst), 0);
    assert_eq!(second.load(Ordering::SeqCst), 1);
}

#[test]
fn programs_with_tag_keeps_registry_order() {
    let mut system = System::builder("order").build();
    system.append_program(Program::builder("a").tag("x").action(|| {}).build());
    system.append_program(Program::builder("b").tag("y").action(|| {}).build());
    system.append_program(Program::builder("c").tag("y").tag("x").action(|| {}).build());
    let names: Vec<&str> = system.programs_with_tag("x").iter().map(|p| p.name()).collect();
    assert_eq!(names, vec!["a", "c"]);
    assert_eq!(system.indices_with_tag("y"), vec![1, 2]);
    assert_eq!(system.indices_with_tag("z"), Vec::<usize>::new());
}

#[test]
fn cli_error_messages() {
    assert_eq!(CliError::InvalidInput("a".to_string()).message(), "Invalid input: a");
    assert_eq!(CliError::CommandFailed("b".to_string()).message(), "Command failed: b");
    assert_eq!(CliError::ProgramNotFound("c".to_string()).message(), "Program not found: c");
}
