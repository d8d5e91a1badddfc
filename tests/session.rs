use bill_manager::menu::{add_bill, remove_bill, update_bill, view_bill, Menu, Notice};
use bill_manager::session::{Session, Stage};
use bill_manager::store::{Bill, Bills};

fn feed(s: &mut Session<f64>, line: &str) -> Vec<Notice> {
    let amount = if s.stage().expects_amount() {
        line.parse::<f64>().ok()
    } else {
        None
    };
    s.step(line, amount)
}

fn records(bills: &Bills<f64>) -> Vec<(String, f64)> {
    let mut r: Vec<(String, f64)> = bills
        .list()
        .into_iter()
        .map(|b| (b.name().to_string(), *b.amount()))
        .collect();
    r.sort_by(|a, b| a.0.cmp(&b.0));
    r
}

fn texts(notices: &[Notice]) -> Vec<&'static str> {
    notices.iter().filter_map(|n| n.text()).collect()
}

#[test]
fn menu_selection_is_parsed() {
    assert_eq!(Menu::from_str("1"), Some(Menu::AddBill));
    assert_eq!(Menu::from_str("2"), Some(Menu::ViewBill));
    assert_eq!(Menu::from_str("3"), Some(Menu::RemoveBill));
    assert_eq!(Menu::from_str("4"), Some(Menu::UpdateBill));
    assert_eq!(Menu::from_str("5"), None);
    assert_eq!(Menu::from_str(""), None);
    assert_eq!(Menu::from_str("11"), None);
    assert_eq!(Menu::from_str("a"), None);
}

#[test]
fn notice_texts() {
    assert_eq!(Notice::Added.text(), Some("Bill added"));
    assert_eq!(Notice::Removed.text(), Some("Bill removed"));
    assert_eq!(Notice::Updated.text(), Some("Bill updated"));
    assert_eq!(Notice::NotFound.text(), Some("Bill not found"));
    assert_eq!(Notice::NotANumber.text(), Some("Please enter a number"));
    assert_eq!(Notice::Listing.text(), None);
    let menu = Notice::Menu.text().unwrap();
    assert!(menu.contains("== Bill Manager =="));
    assert!(menu.contains("1. Add Bill"));
    assert!(menu.contains("4. Update Bill"));
    assert!(menu.contains("Enter selection:"));
    assert_eq!(Session::<f64>::opening(), vec![Notice::Menu]);
}

#[test]
fn flow_functions_report_their_outcome() {
    let mut bills = Bills::new();
    assert_eq!(add_bill(&mut bills, "Water".to_string(), 20.0), Notice::Added);
    assert_eq!(view_bill(&bills).len(), 1);
    assert_eq!(update_bill(&mut bills, "Water", 22.0), Notice::Updated);
    assert_eq!(update_bill(&mut bills, "Gas", 5.0), Notice::NotFound);
    assert_eq!(records(&bills), vec![("Water".to_string(), 22.0)]);
    assert_eq!(remove_bill(&mut bills, "Gas"), Notice::NotFound);
    assert_eq!(remove_bill(&mut bills, "Water"), Notice::Removed);
    assert!(view_bill(&bills).is_empty());
}

#[test]
fn add_then_view() {
    let mut s = Session::new();
    assert_eq!(feed(&mut s, "1"), vec![Notice::NamePrompt]);
    assert_eq!(feed(&mut s, "Groceries"), vec![Notice::AmountPrompt]);
    assert_eq!(feed(&mut s, "54.20"), vec![Notice::Added, Notice::Menu]);
    assert_eq!(feed(&mut s, "2"), vec![Notice::Listing, Notice::Menu]);
    let shown: Vec<String> = view_bill(s.bills())
        .into_iter()
        .map(|b| format!("{} {}", b.name(), b.amount()))
        .collect();
    assert_eq!(shown.len(), 1);
    assert!(shown[0].contains("Groceries"));
    assert!(shown[0].contains("54.2"));
    assert_eq!(feed(&mut s, ""), Vec::<Notice>::new());
    assert!(s.stage().is_exited());
    assert_eq!(records(s.bills()), vec![("Groceries".to_string(), 54.20)]);
}

#[test]
fn update_missing_bill() {
    let mut s = Session::new();
    assert_eq!(feed(&mut s, "4"), vec![Notice::Listing, Notice::UpdatePrompt]);
    assert_eq!(feed(&mut s, "Rent"), vec![Notice::AmountPrompt]);
    let out = feed(&mut s, "900");
    assert!(texts(&out).contains(&"Bill not found"));
    assert!(records(s.bills()).is_empty());
    assert!(matches!(s.stage(), Stage::Choosing));
}

#[test]
fn update_existing_bill() {
    let mut bills = Bills::new();
    bills.add(Bill::new("Rent".to_string(), 900.0));
    let mut s = Session::with_bills(bills);
    feed(&mut s, "4");
    feed(&mut s, "Rent");
    let out = feed(&mut s, "950");
    assert_eq!(texts(&out)[0], "Bill updated");
    assert_eq!(records(s.bills()), vec![("Rent".to_string(), 950.0)]);
}

#[test]
fn remove_existing_bill() {
    let mut bills = Bills::new();
    bills.add(Bill::new("Internet".to_string(), 60.0));
    let mut s = Session::with_bills(bills);
    assert_eq!(feed(&mut s, "3"), vec![Notice::Listing, Notice::RemovePrompt]);
    assert_eq!(view_bill(s.bills()).len(), 1);
    let out = feed(&mut s, "Internet");
    assert_eq!(out, vec![Notice::Removed, Notice::Menu]);
    assert!(texts(&out).contains(&"Bill removed"));
    assert!(records(s.bills()).is_empty());
}

#[test]
fn remove_missing_bill() {
    let mut s = Session::new();
    feed(&mut s, "3");
    assert_eq!(feed(&mut s, "Internet"), vec![Notice::NotFound, Notice::Menu]);
    assert!(records(s.bills()).is_empty());
}

#[test]
fn amount_is_asked_again_until_it_parses() {
    let mut s = Session::new();
    feed(&mut s, "1");
    feed(&mut s, "Books");
    assert_eq!(feed(&mut s, "abc"), vec![Notice::NotANumber]);
    assert!(s.stage().expects_amount());
    assert!(records(s.bills()).is_empty());
    assert_eq!(feed(&mut s, "42.5"), vec![Notice::Added, Notice::Menu]);
    assert_eq!(records(s.bills()), vec![("Books".to_string(), 42.5)]);
}

#[test]
fn empty_name_cancels_each_flow() {
    let mut bills = Bills::new();
    bills.add(Bill::new("Rent".to_string(), 900.0));
    let mut s = Session::with_bills(bills);
    for choice in ["1", "3", "4"] {
        feed(&mut s, choice);
        assert_eq!(feed(&mut s, ""), vec![Notice::Menu]);
        assert!(matches!(s.stage(), Stage::Choosing));
        assert_eq!(records(s.bills()), vec![("Rent".to_string(), 900.0)]);
    }
}

#[test]
fn empty_amount_cancels_even_after_a_bad_number() {
    let mut s = Session::new();
    feed(&mut s, "1");
    feed(&mut s, "Books");
    assert_eq!(feed(&mut s, ""), vec![Notice::Menu]);
    assert!(records(s.bills()).is_empty());
    feed(&mut s, "1");
    feed(&mut s, "Books");
    assert_eq!(feed(&mut s, "abc"), vec![Notice::NotANumber]);
    assert_eq!(feed(&mut s, ""), vec![Notice::Menu]);
    assert!(matches!(s.stage(), Stage::Choosing));
    assert!(records(s.bills()).is_empty());
}

#[test]
fn unknown_selection_exits() {
    let mut s = Session::new();
    assert!(feed(&mut s, "9").is_empty());
    assert!(s.stage().is_exited());
    assert!(feed(&mut s, "1").is_empty());
    assert!(s.stage().is_exited());
}

#[test]
fn negative_amounts_are_kept() {
    let mut s = Session::new();
    feed(&mut s, "1");
    feed(&mut s, "Refund");
    feed(&mut s, "-15.5");
    assert_eq!(records(s.bills()), vec![("Refund".to_string(), -15.5)]);
}
