//! The export file's format: a header line naming the columns, then one line
//! per contact with its fields joined by commas, each line ending in a newline.
//!
//! Fields are written as they are, without quoting: a field that holds a comma
//! or a newline makes the file ambiguous.
use crate::contact::{uuid_text_of, Contact};
use vstd::prelude::*;

verus! {

/// The number of newline characters in `s`.
pub open spec fn newlines(s: Seq<char>) -> nat
    decreases s.len(),
{
    if s.len() == 0 {
        0
    } else {
        newlines(s.drop_last()) + if s.last() == '\n' {
            1nat
        } else {
            0nat
        }
    }
}

/// Whether `s` holds no newline, so that it stays within one line.
pub open spec fn single_line(s: Seq<char>) -> bool {
    forall|i: int| 0 <= i < s.len() ==> s[i] != '\n'
}

/// Whether none of the text fields of `c` holds a newline.
pub open spec fn fields_single_line(c: Contact) -> bool {
    single_line(c.first@) && single_line(c.last@) && single_line(c.phone@) && single_line(
        c.email@,
    )
}

/// The column names, comma-joined.
pub open spec fn header_spec() -> Seq<char> {
    seq![
        'i', 'd', ',', 'f', 'i', 'r', 's', 't', ',', 'l', 'a', 's', 't', ',', 'p', 'h', 'o', 'n',
        'e', ',', 'e', 'm', 'a', 'i', 'l',
    ]
}

/// The first line of every export file.
pub open spec fn header_line_spec() -> Seq<char> {
    header_spec().push('\n')
}

/// The line written for contact `c`.
pub open spec fn line_of(c: Contact) -> Seq<char> {
    uuid_text_of(c.id.0) + seq![','] + c.first@ + seq![','] + c.last@ + seq![','] + c.phone@
        + seq![','] + c.email@ + seq!['\n']
}

/// The lines written for `records`, in order.
pub open spec fn lines_of(records: Seq<Contact>) -> Seq<char>
    decreases records.len(),
{
    if records.len() == 0 {
        Seq::empty()
    } else {
        lines_of(records.drop_last()) + line_of(records.last())
    }
}

/// The whole export file for `records`.
pub open spec fn export_of(records: Seq<Contact>) -> Seq<char> {
    header_line_spec() + lines_of(records)
}

proof fn lemma_newlines_add(a: Seq<char>, b: Seq<char>)
    ensures
        newlines(a + b) == newlines(a) + newlines(b),
    decreases b.len(),
{
    if b.len() == 0 {
        assert(a + b =~= a);
    } else {
        assert((a + b).drop_last() =~= a + b.drop_last());
        lemma_newlines_add(a, b.drop_last());
    }
}

proof fn lemma_single_line_no_newlines(s: Seq<char>)
    requires
        single_line(s),
    ensures
        newlines(s) == 0,
    decreases s.len(),
{
    if s.len() > 0 {
        assert(s[s.len() - 1] != '\n');
        lemma_single_line_no_newlines(s.drop_last());
    }
}

proof fn lemma_newlines_comma()
    ensures
        newlines(seq![',']) == 0,
{
    let s = seq![','];
    assert(s.drop_last() =~= Seq::<char>::empty());
    assert(newlines(s.drop_last()) == 0);
    assert(s.last() == ',');
}

proof fn lemma_newlines_newline()
    ensures
        newlines(seq!['\n']) == 1,
{
    let s = seq!['\n'];
    assert(s.drop_last() =~= Seq::<char>::empty());
    assert(newlines(s.drop_last()) == 0);
    assert(s.last() == '\n');
}

proof fn lemma_header_line_newlines()
    ensures
        newlines(header_line_spec()) == 1,
{
    lemma_single_line_no_newlines(header_spec());
    assert(header_line_spec().drop_last() =~= header_spec());
}

/// The header line, newline included.
pub fn header_line() -> (r: String)
    ensures
        r@ == header_line_spec(),
{
    let r = String::from_str("id,first,last,phone,email\n");
    proof {
        reveal_strlit("id,first,last,phone,email\n");
        assert(r@ =~= header_line_spec());
    }
    r
}

/// The line written for one contact, newline included.
pub fn record_line(c: &Contact) -> (r: String)
    ensures
        r@ == line_of(*c),
        fields_single_line(*c) ==> newlines(r@) == 1,
{
    let id = c.id.to_text();
    let ghost id_text = id@;
    let mut r = id;
    proof {
        reveal_strlit(",");
        reveal_strlit("\n");
    }
    r.append(",");
    r.append(c.first.as_str());
    r.append(",");
    r.append(c.last.as_str());
    r.append(",");
    r.append(c.phone.as_str());
    r.append(",");
    r.append(c.email.as_str());
    r.append("\n");
    proof {
        assert(",".view() =~= seq![',']);
        assert("\n".view() =~= seq!['\n']);
        assert(r@ =~= line_of(*c));
        if fields_single_line(*c) {
            assert(single_line(id_text));
            lemma_single_line_no_newlines(id_text);
            lemma_single_line_no_newlines(c.first@);
            lemma_single_line_no_newlines(c.last@);
            lemma_single_line_no_newlines(c.phone@);
            lemma_single_line_no_newlines(c.email@);
            lemma_newlines_comma();
            lemma_newlines_newline();
            let comma = seq![','];
            let s1 = id_text + comma;
            let s2 = s1 + c.first@;
            let s3 = s2 + comma;
            let s4 = s3 + c.last@;
            let s5 = s4 + comma;
            let s6 = s5 + c.phone@;
            let s7 = s6 + comma;
            let s8 = s7 + c.email@;
            lemma_newlines_add(id_text, comma);
            lemma_newlines_add(s1, c.first@);
            lemma_newlines_add(s2, comma);
            lemma_newlines_add(s3, c.last@);
            lemma_newlines_add(s4, comma);
            lemma_newlines_add(s5, c.phone@);
            lemma_newlines_add(s6, comma);
            lemma_newlines_add(s7, c.email@);
            lemma_newlines_add(s8, seq!['\n']);
            assert(r@ =~= s8 + seq!['\n']);
        }
    }
    r
}

/// The whole export file for `records`: the header line, then one line per
/// record in order. Where no field holds a newline, the file has exactly one
/// line more than there are records, and it always starts with the header.
pub fn export_text(records: &Vec<Contact>) -> (r: String)
    ensures
        r@ == export_of(records@),
        r@.take(header_line_spec().len() as int) == header_line_spec(),
        (forall|k: int| 0 <= k < records@.len() ==> fields_single_line(#[trigger] records@[k]))
            ==> newlines(r@) == records@.len() + 1,
{
    let mut r = header_line();
    proof {
        lemma_header_line_newlines();
        assert(records@.take(0) =~= Seq::<Contact>::empty());
        assert(r@ =~= export_of(records@.take(0)));
    }
    let mut i: usize = 0;
    while i < records.len()
        invariant
            i <= records@.len(),
            r@ == export_of(records@.take(i as int)),
            (forall|k: int| 0 <= k < records@.len() ==> fields_single_line(#[trigger] records@[k]))
                ==> newlines(r@) == i + 1,
        decreases records@.len() - i,
    {
        let line = record_line(&records[i]);
        let ghost before = r@;
        r.append(line.as_str());
        proof {
            let next = records@.take(i + 1);
            assert(next.drop_last() =~= records@.take(i as int));
            assert(next.last() == records@[i as int]);
            assert(r@ =~= export_of(next));
            lemma_newlines_add(before, line@);
        }
        i = i + 1;
    }
    proof {
        assert(records@.take(records@.len() as int) =~= records@);
        assert(r@.take(header_line_spec().len() as int) =~= header_line_spec());
    }
    r
}

} // verus!
