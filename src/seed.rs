//! Seed data for the contact store: one SQL `INSERT` statement of made-up
//! contacts, each with an email of the form `first.last@example.com` that no
//! other row of the statement uses.
use fake::faker::name::raw::{FirstName, LastName};
use fake::faker::phone_number::raw::PhoneNumber;
use fake::locales::EN;
use fake::Fake;
use rand::rngs::SmallRng;
use vstd::prelude::*;

verus! {

#[verifier::external_type_specification]
#[verifier::external_body]
pub struct ExSmallRng(SmallRng);

/// How many emails are tried for one row before generation stops.
pub const MAX_TRIES: u64 = 10_000_000;

/// Relies on fake's `FirstName(EN)`: some English first name drawn with `rng`.
#[verifier::external_body]
fn fake_first_name(rng: &mut SmallRng) -> (r: String) {
    let name: &'static str = FirstName(EN).fake_with_rng(rng);
    name.to_string()
}

/// Relies on fake's `LastName(EN)`: some English last name drawn with `rng`.
#[verifier::external_body]
fn fake_last_name(rng: &mut SmallRng) -> (r: String) {
    let name: &'static str = LastName(EN).fake_with_rng(rng);
    name.to_string()
}

/// Relies on fake's `PhoneNumber(EN)`: some phone number drawn with `rng`.
#[verifier::external_body]
fn fake_phone_number(rng: &mut SmallRng) -> (r: String) {
    PhoneNumber(EN).fake_with_rng(rng)
}

/// `s` as a PostgreSQL string literal's body: each single quote doubled.
pub open spec fn escape_of(s: Seq<char>) -> Seq<char>
    decreases s.len(),
{
    if s.len() == 0 {
        Seq::empty()
    } else if s.last() == '\'' {
        escape_of(s.drop_last()) + seq!['\'', '\'']
    } else {
        escape_of(s.drop_last()).push(s.last())
    }
}

/// The email made up for a contact named `first` `last`.
pub open spec fn email_of(first: Seq<char>, last: Seq<char>) -> Seq<char> {
    first + seq!['.'] + last + seq![
        '@', 'e', 'x', 'a', 'm', 'p', 'l', 'e', '.', 'c', 'o', 'm',
    ]
}

/// One quoted value of a row, with the separator that follows it.
pub open spec fn quoted(s: Seq<char>, sep: Seq<char>) -> Seq<char> {
    seq!['\''] + escape_of(s) + seq!['\''] + sep
}

/// The row of values for one contact, with its trailing comma and newline.
pub open spec fn row_of(first: Seq<char>, last: Seq<char>, phone: Seq<char>, email: Seq<char>) -> Seq<
    char,
> {
    seq!['('] + quoted(first, seq![',', ' ']) + quoted(last, seq![',', ' ']) + quoted(
        phone,
        seq![',', ' '],
    ) + quoted(email, seq![')', ',', '\n'])
}

/// A made-up contact: first name, last name and phone number.
pub type Person = (Seq<char>, Seq<char>, Seq<char>);

/// The rows for `people`, in order, each with the email made from its name.
pub open spec fn rows_of(people: Seq<Person>) -> Seq<char>
    decreases people.len(),
{
    if people.len() == 0 {
        Seq::empty()
    } else {
        let p = people.last();
        rows_of(people.drop_last()) + row_of(p.0, p.1, p.2, email_of(p.0, p.1))
    }
}

/// The text before the first row.
pub open spec fn insert_prefix() -> Seq<char> {
    seq![
        'I', 'N', 'S', 'E', 'R', 'T', ' ', 'I', 'N', 'T', 'O', ' ', 'C', 'o', 'n', 't', 'a', 'c',
        't', 's', ' ', '(', 'f', 'i', 'r', 's', 't', ',', ' ', 'l', 'a', 's', 't', ',', ' ', 'p',
        'h', 'o', 'n', 'e', ',', ' ', 'e', 'm', 'a', 'i', 'l', ')', ' ', 'V', 'A', 'L', 'U', 'E',
        'S', ' ',
    ]
}

/// The whole statement for `people`.
pub open spec fn statement_of(people: Seq<Person>) -> Seq<char> {
    insert_prefix() + rows_of(people) + seq![';']
}

/// Whether no two of `people` get the same email.
pub open spec fn emails_distinct(people: Seq<Person>) -> bool {
    forall|i: int, j: int|
        0 <= i < j < people.len() ==> email_of(people[i].0, people[i].1) != email_of(
            people[j].0,
            people[j].1,
        )
}

/// Doubles each single quote of `input`, so that it can stand between single
/// quotes in a PostgreSQL statement.
pub fn postgres_escape(input: &str) -> (r: String)
    ensures
        r@ == escape_of(input@),
{
    let n = input.unicode_len();
    let mut r = String::new();
    proof {
        assert(input@.take(0) =~= Seq::<char>::empty());
    }
    let mut i: usize = 0;
    while i < n
        invariant
            n == input@.len(),
            i <= n,
            r@ == escape_of(input@.take(i as int)),
        decreases n - i,
    {
        let c = input.get_char(i);
        if c == '\'' {
            r.append("''");
        } else {
            r.append(input.substring_char(i, i + 1));
        }
        proof {
            let next = input@.take(i + 1);
            assert(next.drop_last() =~= input@.take(i as int));
            assert(next.last() == c);
            if c == '\'' {
                reveal_strlit("''");
                assert("''"@ =~= seq!['\'', '\'']);
            } else {
                assert(input@.subrange(i as int, i + 1) =~= seq![c]);
            }
            assert(r@ =~= escape_of(next));
        }
        i = i + 1;
    }
    proof {
        assert(input@.take(n as int) =~= input@);
    }
    r
}

/// The email made up for a contact named `first` `last`.
pub fn email_for(first: &str, last: &str) -> (r: String)
    ensures
        r@ == email_of(first@, last@),
{
    let mut r = String::from_str(first);
    proof {
        reveal_strlit(".");
        reveal_strlit("@example.com");
    }
    r.append(".");
    r.append(last);
    r.append("@example.com");
    proof {
        assert(r@ =~= email_of(first@, last@));
    }
    r
}

fn append_quoted(out: &mut String, s: &str, sep: &str)
    ensures
        final(out)@ == old(out)@ + quoted(s@, sep@),
{
    let ghost start = out@;
    proof {
        reveal_strlit("'");
    }
    out.append("'");
    let escaped = postgres_escape(s);
    out.append(escaped.as_str());
    out.append("'");
    out.append(sep);
    proof {
        assert("'"@ =~= seq!['\'']);
        assert(out@ =~= start + quoted(s@, sep@));
    }
}

/// The row of values for one contact.
pub fn value_row(first: &str, last: &str, phone: &str, email: &str) -> (r: String)
    ensures
        r@ == row_of(first@, last@, phone@, email@),
{
    proof {
        reveal_strlit("(");
        reveal_strlit(", ");
        reveal_strlit("),\n");
    }
    let mut r = String::from_str("(");
    append_quoted(&mut r, first, ", ");
    append_quoted(&mut r, last, ", ");
    append_quoted(&mut r, phone, ", ");
    append_quoted(&mut r, email, "),\n");
    proof {
        assert("("@ =~= seq!['(']);
        assert(", "@ =~= seq![',', ' ']);
        assert("),\n"@ =~= seq![')', ',', '\n']);
        assert(r@ =~= row_of(first@, last@, phone@, email@));
    }
    r
}

/// Whether `email` is one of `used`.
pub fn is_used(used: &Vec<String>, email: &String) -> (r: bool)
    ensures
        r == exists|k: int| 0 <= k < used@.len() && (#[trigger] used@[k])@ == email@,
{
    let mut i: usize = 0;
    while i < used.len()
        invariant
            i <= used@.len(),
            forall|k: int| 0 <= k < i ==> (#[trigger] used@[k])@ != email@,
        decreases used@.len() - i,
    {
        if used[i] == *email {
            return true;
        }
        i = i + 1;
    }
    false
}

/// A statement that inserts up to `num` made-up contacts drawn with `rng`.
/// Each row's email is made from its name and differs from every earlier
/// row's; where `MAX_TRIES` names in a row all give taken emails, the
/// statement ends early.
pub fn generate(num: i64, rng: &mut SmallRng) -> (r: String)
    ensures
        exists|people: Seq<Person>|
            #[trigger] statement_of(people) == r@ && people.len() <= (if num < 0 {
                0
            } else {
                num as int
            }) && emails_distinct(people),
{
    proof {
        reveal_strlit("INSERT INTO Contacts (first, last, phone, email) VALUES ");
        reveal_strlit(";");
    }
    let mut out = String::from_str("INSERT INTO Contacts (first, last, phone, email) VALUES ");
    let mut used: Vec<String> = Vec::new();
    let ghost mut people: Seq<Person> = Seq::empty();
    let mut n: i64 = 0;
    let mut gave_up = false;
    proof {
        assert(out@ =~= insert_prefix() + rows_of(people));
    }
    while n < num && !gave_up
        invariant
            0 <= n,
            num >= 0 ==> n <= num,
            num < 0 ==> n == 0,
            people.len() == n,
            out@ == insert_prefix() + rows_of(people),
            used@.len() == people.len(),
            forall|k: int|
                0 <= k < people.len() ==> (#[trigger] used@[k])@ == email_of(
                    people[k].0,
                    people[k].1,
                ),
            emails_distinct(people),
        decreases num - n + if gave_up {
            0int
        } else {
            1int
        },
    {
        let mut first = fake_first_name(rng);
        let mut last = fake_last_name(rng);
        let phone = fake_phone_number(rng);
        let mut email = email_for(first.as_str(), last.as_str());
        let mut tries: u64 = 1;
        loop
            invariant_except_break
                1 <= tries < MAX_TRIES,
                !gave_up,
            invariant
                email@ == email_of(first@, last@),
            ensures
                email@ == email_of(first@, last@),
                gave_up || !exists|k: int|
                    0 <= k < used@.len() && (#[trigger] used@[k])@ == email@,
            decreases MAX_TRIES - tries,
        {
            if !is_used(&used, &email) {
                break;
            }
            first = fake_first_name(rng);
            last = fake_last_name(rng);
            email = email_for(first.as_str(), last.as_str());
            tries = tries + 1;
            if tries == MAX_TRIES {
                gave_up = true;
                break;
            }
        }
        if !gave_up {
            let row = value_row(first.as_str(), last.as_str(), phone.as_str(), email.as_str());
            out.append(row.as_str());
            let ghost old_people = people;
            let ghost person: Person = (first@, last@, phone@);
            used.push(email);
            proof {
                people = people.push(person);
                assert(people.drop_last() =~= old_people);
                assert(out@ =~= insert_prefix() + rows_of(people));
                assert forall|k: int| 0 <= k < people.len() implies (#[trigger] used@[k])@
                    == email_of(people[k].0, people[k].1) by {
                    if k < old_people.len() {
                        assert(people[k] == old_people[k]);
                    }
                }
                assert forall|i: int, j: int| 0 <= i < j < people.len() implies email_of(
                    people[i].0,
                    people[i].1,
                ) != email_of(people[j].0, people[j].1) by {
                    if j == people.len() - 1 {
                        assert(used@[i]@ == email_of(people[i].0, people[i].1));
                    } else {
                        assert(people[i] == old_people[i]);
                        assert(people[j] == old_people[j]);
                    }
                }
            }
            n = n + 1;
        }
    }
    out.append(";");
    proof {
        assert(";"@ =~= seq![';']);
        assert(out@ =~= statement_of(people));
    }
    out
}

} // verus!
