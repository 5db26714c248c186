use vstd::prelude::*;

use crate::text::{chars_of, is_white_space, string_of, white_space};

verus! {

/// Where a left-to-right reading of a text stands: the rows of the lines already ended, the
/// fields of the current line, and the word being read.
pub struct Scan {
    pub rows: Seq<Seq<Seq<char>>>,
    pub fields: Seq<Seq<char>>,
    pub word: Seq<char>,
}

/// `fields` with `word` added at the end, if there is a word.
pub open spec fn end_word(fields: Seq<Seq<char>>, word: Seq<char>) -> Seq<Seq<char>> {
    if word.len() > 0 {
        fields.push(word)
    } else {
        fields
    }
}

/// Reading one more character: a newline ends the line, other white space ends the word,
/// anything else extends it.
pub open spec fn scan_char(st: Scan, c: char) -> Scan {
    if c == '\n' {
        Scan { rows: st.rows.push(end_word(st.fields, st.word)), fields: seq![], word: seq![] }
    } else if is_white_space(c) {
        Scan { rows: st.rows, fields: end_word(st.fields, st.word), word: seq![] }
    } else {
        Scan { rows: st.rows, fields: st.fields, word: st.word.push(c) }
    }
}

/// Where the reading stands after all of `s`.
pub open spec fn scan(s: Seq<char>) -> Scan
    decreases s.len(),
{
    if s.len() == 0 {
        Scan { rows: seq![], fields: seq![], word: seq![] }
    } else {
        scan_char(scan(s.drop_last()), s.last())
    }
}

/// The white-space-separated fields of each line of `s`, in order; what follows the last
/// newline counts as one more line.
pub open spec fn table(s: Seq<char>) -> Seq<Seq<Seq<char>>> {
    let st = scan(s);
    st.rows.push(end_word(st.fields, st.word))
}

/// Splits tabular text into lines and each line into its white-space-separated fields.
pub fn parse_table(text: &str) -> (r: Vec<Vec<String>>)
    ensures
        r.deep_view() == table(text@),
{
    let v = chars_of(text);
    let mut rows: Vec<Vec<String>> = Vec::new();
    let mut fields: Vec<String> = Vec::new();
    let mut start: usize = 0;
    let mut i: usize = 0;
    assert(v@.take(0) =~= seq![]);
    assert(rows.deep_view() =~= seq![]);
    assert(fields.deep_view() =~= seq![]);
    assert(v@.subrange(0, 0) =~= seq![]);
    while i < v.len()
        invariant
            start <= i <= v.len(),
            v@ == text@,
            scan(v@.take(i as int)) == (Scan {
                rows: rows.deep_view(),
                fields: fields.deep_view(),
                word: v@.subrange(start as int, i as int),
            }),
        decreases v.len() - i,
    {
        let c = v[i];
        let ghost before = scan(v@.take(i as int));
        assert(v@.take(i + 1).drop_last() =~= v@.take(i as int));
        assert(v@.take(i + 1).last() == c);
        if c == '\n' || white_space(c) {
            if start < i {
                let w = string_of(&v, start, i);
                let ghost old_fields = fields.deep_view();
                fields.push(w);
                assert(fields.deep_view() =~= old_fields.push(w@));
            }
            assert(fields.deep_view() == end_word(before.fields, before.word));
            if c == '\n' {
                let ghost old_rows = rows.deep_view();
                let ghost f = fields.deep_view();
                rows.push(fields);
                assert(rows.deep_view() =~= old_rows.push(f));
                fields = Vec::new();
                assert(fields.deep_view() =~= seq![]);
            }
            start = i + 1;
            assert(v@.subrange(start as int, i + 1) =~= seq![]);
        } else {
            assert(v@.subrange(start as int, i + 1) =~= v@.subrange(start as int, i as int).push(
                c,
            ));
        }
        i = i + 1;
    }
    assert(v@.take(i as int) =~= v@);
    if start < i {
        let w = string_of(&v, start, i);
        let ghost old_fields = fields.deep_view();
        fields.push(w);
        assert(fields.deep_view() =~= old_fields.push(w@));
    }
    let ghost old_rows = rows.deep_view();
    let ghost f = fields.deep_view();
    rows.push(fields);
    assert(rows.deep_view() =~= old_rows.push(f));
    rows
}

/// The second field of the last row of `rows` that has at least two fields and whose first
/// field is `key`.
pub open spec fn lookup(rows: Seq<Seq<Seq<char>>>, key: Seq<char>) -> Option<Seq<char>>
    decreases rows.len(),
{
    if rows.len() == 0 {
        None
    } else if rows.last().len() >= 2 && rows.last()[0] == key {
        Some(rows.last()[1])
    } else {
        lookup(rows.drop_last(), key)
    }
}

/// The index of the row that [`lookup`] takes its value from.
pub fn find_row(rows: &Vec<Vec<String>>, key: &String) -> (r: Option<usize>)
    ensures
        match r {
            Some(j) => j < rows.len() && rows[j as int].len() >= 2 && lookup(rows.deep_view(), key@)
                == Some(rows[j as int][1]@),
            None => lookup(rows.deep_view(), key@) is None,
        },
{
    let ghost dv = rows.deep_view();
    let mut j: usize = rows.len();
    assert(dv.take(j as int) =~= dv);
    while j > 0
        invariant
            j <= rows.len(),
            dv == rows.deep_view(),
            lookup(dv.take(j as int), key@) == lookup(dv, key@),
        decreases j,
    {
        let row = &rows[j - 1];
        assert(dv.take(j as int).last() == row.deep_view());
        assert(dv.take(j as int).drop_last() =~= dv.take(j - 1));
        if row.len() >= 2 && row[0] == *key {
            assert(row.deep_view()[0] == row[0]@);
            assert(row.deep_view()[1] == row[1]@);
            return Some(j - 1);
        }
        proof {
            if row.len() >= 2 {
                assert(row.deep_view()[0] == row[0]@);
            }
        }
        j = j - 1;
    }
    assert(dv.take(0) =~= seq![]);
    None
}

} // verus!
