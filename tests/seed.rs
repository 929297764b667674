use contact_archiver::seed::{email_for, generate, is_used, postgres_escape, value_row};
use rand::rngs::SmallRng;
use rand::SeedableRng;

fn rng() -> SmallRng {
    SmallRng::from_seed(*b"A cool seed that's 32 bytes long")
}

#[test]
fn escape_doubles_single_quotes() {
    assert_eq!(postgres_escape("O'Brien"), "O''Brien");
    assert_eq!(postgres_escape("''"), "''''");
    assert_eq!(postgres_escape("plain"), "plain");
    assert_eq!(postgres_escape(""), "");
}

#[test]
fn escape_keeps_other_characters() {
    assert_eq!(postgres_escape("Zoë \"x\", y"), "Zoë \"x\", y");
}

#[test]
fn email_joins_names() {
    assert_eq!(email_for("Ada", "Lovelace"), "Ada.Lovelace@example.com");
}

#[test]
fn row_quotes_and_escapes_each_value() {
    assert_eq!(
        value_row("D'Arcy", "Smith", "555", "D'Arcy.Smith@example.com"),
        "('D''Arcy', 'Smith', '555', 'D''Arcy.Smith@example.com'),\n"
    );
}

#[test]
fn used_emails_are_found() {
    let used = vec!["a@example.com".to_string(), "b@example.com".to_string()];
    assert!(is_used(&used, &"b@example.com".to_string()));
    assert!(!is_used(&used, &"c@example.com".to_string()));
    assert!(!is_used(&Vec::new(), &"a@example.com".to_string()));
}

#[test]
fn statement_has_one_row_per_contact() {
    let text = generate(25, &mut rng());
    assert!(text.starts_with("INSERT INTO Contacts (first, last, phone, email) VALUES "));
    assert!(text.ends_with(";"));
    assert_eq!(text.matches("),\n").count(), 25);
}

#[test]
fn statement_emails_are_distinct() {
    let text = generate(200, &mut rng());
    let mut emails: Vec<&str> = text
        .lines()
        .map(|line| line.rsplit(", ").next().unwrap())
        .collect();
    let n = emails.len();
    emails.sort();
    emails.dedup();
    assert_eq!(emails.len(), n);
}

#[test]
fn no_rows_for_zero_or_negative_count() {
    let empty = "INSERT INTO Contacts (first, last, phone, email) VALUES ;";
    assert_eq!(generate(0, &mut rng()), empty);
    assert_eq!(generate(-3, &mut rng()), empty);
}

#[test]
fn same_seed_gives_same_statement() {
    assert_eq!(generate(10, &mut rng()), generate(10, &mut rng()));
}
