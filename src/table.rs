use vstd::prelude::*;
use vstd::string::*;

verus! {

/// The fields of a line, cut at every comma: `""` has one empty field and
/// `"a,,b"` has three.
pub open spec fn comma_fields(s: Seq<char>) -> Seq<Seq<char>>
    decreases s.len(),
{
    if s.len() == 0 {
        seq![Seq::empty()]
    } else {
        let p = comma_fields(s.drop_last());
        if s.last() == ',' {
            p.push(Seq::empty())
        } else {
            p.update(p.len() - 1, p.last().push(s.last()))
        }
    }
}

proof fn lemma_comma_fields_nonempty(s: Seq<char>)
    ensures
        comma_fields(s).len() >= 1,
    decreases s.len(),
{
    if s.len() > 0 {
        lemma_comma_fields_nonempty(s.drop_last());
    }
}

/// The views of a list of strings.
pub open spec fn views(v: Seq<String>) -> Seq<Seq<char>> {
    v.map_values(|x: String| x@)
}

/// Splits one line of a comma-separated table (a header of column names, or
/// a row of values) into its fields.
pub fn split_fields(line: &str) -> (r: Vec<String>)
    ensures
        views(r@) == comma_fields(line@),
{
    let n = line.unicode_len();
    let mut out: Vec<String> = Vec::new();
    let mut start: usize = 0;
    let mut i: usize = 0;
    assert(line@.subrange(0, 0) =~= Seq::<char>::empty());
    assert(views(out@).push(line@.subrange(0, 0)) =~= comma_fields(line@.subrange(0, 0)));
    while i < n
        invariant
            n == line@.len(),
            start <= i <= n,
            views(out@).push(line@.subrange(start as int, i as int)) == comma_fields(
                line@.subrange(0, i as int),
            ),
        decreases n - i,
    {
        let ch = line.get_char(i);
        let ghost pre = line@.subrange(0, i as int);
        assert(line@.subrange(0, i + 1).drop_last() == pre);
        assert(line@.subrange(0, i + 1).last() == ch);
        proof {
            lemma_comma_fields_nonempty(pre);
        }
        if ch == ',' {
            let field = String::from_str(line.substring_char(start, i));
            out.push(field);
            assert(views(out@) =~= comma_fields(pre));
            i = i + 1;
            start = i;
            assert(line@.subrange(start as int, i as int) =~= Seq::<char>::empty());
            assert(views(out@).push(line@.subrange(start as int, i as int)) =~= comma_fields(
                line@.subrange(0, i as int),
            ));
        } else {
            assert(line@.subrange(start as int, i + 1) =~= line@.subrange(
                start as int,
                i as int,
            ).push(ch));
            i = i + 1;
            assert(views(out@).push(line@.subrange(start as int, i as int)) =~= comma_fields(
                line@.subrange(0, i as int),
            ));
        }
    }
    let last = String::from_str(line.substring_char(start, n));
    out.push(last);
    assert(line@.subrange(0, n as int) =~= line@);
    assert(views(out@) =~= comma_fields(line@));
    out
}

/// Whether a column name marks the label column.
pub open spec fn is_label_name(s: Seq<char>) -> bool {
    s == "label"@
}

/// Finds the column that holds each row's label: the last column named
/// `label`, if any.
pub fn label_column(names: &Vec<String>) -> (r: Option<usize>)
    ensures
        r is None <==> forall|i: int| 0 <= i < names.len() ==> !is_label_name(#[trigger] names[i]@),
        r matches Some(j) ==> j < names.len() && is_label_name(names[j as int]@) && forall|i: int|
            j < i < names.len() ==> !is_label_name(#[trigger] names[i]@),
{
    let label = String::from_str("label");
    let mut found: Option<usize> = None;
    let mut i: usize = 0;
    while i < names.len()
        invariant
            i <= names.len(),
            label@ == "label"@,
            found is None ==> forall|j: int| 0 <= j < i ==> !is_label_name(#[trigger] names[j]@),
            found matches Some(j) ==> j < i && is_label_name(names[j as int]@) && forall|m: int|
                j < m < i ==> !is_label_name(#[trigger] names[m]@),
        decreases names.len() - i,
    {
        if names[i] == label {
            found = Some(i);
        }
        i = i + 1;
    }
    found
}

} // verus!
