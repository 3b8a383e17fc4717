use cli_toolbox::menu::Menu;
use std::sync::atomic::{AtomicUsize, Ordering};
use std::sync::Arc;

fn counting(counter: &Arc<AtomicUsize>) -> impl Fn() + 'static {
    let counter = counter.clone();
    move || {
        counter.fetch_add(1, Ordering::SeqCst);
    }
}

#[test]
fn new_menu_has_no_items() {
    let menu = Menu::new("Main".to_string());
    assert_eq!(menu.name(), "Main");
    assert_eq!(menu.len(), 0);
    assert!(menu.lines().is_empty());
    assert_eq!(menu.pick("0"), None);
}

#[test]
fn items_are_added_last_and_numbered_from_zero() {
    let mut menu = Menu::new("Main".to_string());
    menu.add_item("first".to_string(), || {});
    menu.add_item("second".to_string(), || {});
    menu.add_item("first".to_string(), || {});
    assert_eq!(menu.len(), 3);
    assert_eq!(
        menu.lines(),
        vec![
            format!("{0: <10}) {1: <100}", 0, "first"),
            format!("{0: <10}) {1: <100}", 1, "second"),
            format!("{0: <10}) {1: <100}", 2, "first"),
        ]
    );
}

#[test]
fn a_line_picks_the_item_at_its_number() {
    let first = Arc::new(AtomicUsize::new(0));
    let second = Arc::new(AtomicUsize::new(0));
    let mut menu = Menu::new("Main".to_string());
    menu.add_item("first".to_string(), counting(&first));
    menu.add_item("second".to_string(), counting(&second));
    assert_eq!(menu.pick("0"), Some(0));
    assert_eq!(menu.pick("+1"), Some(1));
    assert_eq!(menu.pick("2"), None);
    assert_eq!(menu.pick("-1"), None);
    assert_eq!(menu.pick("-0"), Some(0));
    assert_eq!(menu.pick("one"), None);
    assert_eq!(menu.pick(""), None);
    assert_eq!(menu.pick("99999999999"), None);
    menu.run("1");
    assert_eq!(first.load(Ordering::SeqCst), 0);
    assert_eq!(second.load(Ordering::SeqCst), 1);
    menu.run("0");
    menu.run("0");
    assert_eq!(first.load(Ordering::SeqCst), 2);
}
