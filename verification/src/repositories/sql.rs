//! Pieces of SQL text that the repositories assemble: bound values,
//! placeholder lists and `AND`-joined clauses.
use vstd::prelude::*;

verus! {

/// A value bound to a `?` placeholder.
#[derive(Debug, Clone, PartialEq, Eq)]
pub enum SqlValue {
    Integer(i64),
    Text(String),
}

/// What a bound value holds.
pub enum SqlParam {
    Integer(i64),
    Text(Seq<char>),
}

impl View for SqlValue {
    type V = SqlParam;

    open spec fn view(&self) -> SqlParam {
        match self {
            SqlValue::Integer(i) => SqlParam::Integer(*i),
            SqlValue::Text(s) => SqlParam::Text(s@),
        }
    }
}

/// What a list of bound values holds.
pub open spec fn params_of(v: Seq<SqlValue>) -> Seq<SqlParam> {
    v.map_values(|x: SqlValue| x@)
}

/// Texts bound as parameters, in order.
pub open spec fn text_params(ts: Seq<Seq<char>>) -> Seq<SqlParam> {
    ts.map_values(|t: Seq<char>| SqlParam::Text(t))
}

/// The texts of a list of strings.
pub open spec fn texts(v: Seq<String>) -> Seq<Seq<char>> {
    v.map_values(|s: String| s@)
}

/// `n` question marks separated by `, `.
pub open spec fn placeholders(n: nat) -> Seq<char>
    decreases n,
{
    if n == 0 {
        Seq::empty()
    } else if n == 1 {
        "?"@
    } else {
        placeholders((n - 1) as nat) + ", ?"@
    }
}

/// The `?, ?, …` list for `n` values.
pub fn placeholder_list(n: usize) -> (r: String)
    ensures
        r@ == placeholders(n as nat),
{
    let mut out = String::new();
    let mut i: usize = 0;
    while i < n
        invariant
            i <= n,
            out@ == placeholders(i as nat),
        decreases n - i,
    {
        if i == 0 {
            out.append("?");
        } else {
            out.append(", ?");
        }
        i = i + 1;
    }
    out
}

/// Parts joined by a separator.
pub open spec fn joined(parts: Seq<Seq<char>>, sep: Seq<char>) -> Seq<char>
    decreases parts.len(),
{
    if parts.len() == 0 {
        Seq::empty()
    } else if parts.len() == 1 {
        parts[0]
    } else {
        joined(parts.drop_last(), sep) + sep + parts.last()
    }
}

/// `parts.join(sep)`.
pub fn join(parts: &Vec<String>, sep: &str) -> (r: String)
    ensures
        r@ == joined(texts(parts@), sep@),
{
    let mut out = String::new();
    let n = parts.len();
    let mut i: usize = 0;
    while i < n
        invariant
            i <= n == parts@.len(),
            out@ == joined(texts(parts@.take(i as int)), sep@),
        decreases n - i,
    {
        proof {
            let t = texts(parts@.take(i as int + 1));
            assert(t.drop_last() =~= texts(parts@.take(i as int)));
            assert(t.last() == parts@[i as int]@);
        }
        if i > 0 {
            out.append(sep);
        }
        out.append(parts[i].as_str());
        i = i + 1;
    }
    assert(parts@.take(n as int) =~= parts@);
    out
}

/// How many `?` placeholders `s` holds from index `i` on.
pub open spec fn marks_from(s: Seq<char>, i: int) -> nat
    decreases s.len() - i,
{
    if i < 0 || i >= s.len() {
        0
    } else {
        (if s[i] == '?' {
            1nat
        } else {
            0nat
        }) + marks_from(s, i + 1)
    }
}

/// How many `?` placeholders a SQL text holds.
pub open spec fn marks(s: Seq<char>) -> nat {
    marks_from(s, 0)
}

/// The placeholders of several texts together.
pub open spec fn marks_of(parts: Seq<Seq<char>>) -> nat
    decreases parts.len(),
{
    if parts.len() == 0 {
        0
    } else {
        marks_of(parts.drop_last()) + marks(parts.last())
    }
}

/// Counting past the end of `a` in `a + b` counts in `b`.
proof fn lemma_marks_shift(a: Seq<char>, b: Seq<char>, j: int)
    requires
        0 <= j,
    ensures
        marks_from(a + b, a.len() + j) == marks_from(b, j),
    decreases b.len() - j,
{
    if j < b.len() {
        assert((a + b)[a.len() + j] == b[j]);
        lemma_marks_shift(a, b, j + 1);
    }
}

/// Counting from inside `a` in `a + b`.
proof fn lemma_marks_add_from(a: Seq<char>, b: Seq<char>, i: int)
    requires
        0 <= i <= a.len(),
    ensures
        marks_from(a + b, i) == marks_from(a, i) + marks(b),
    decreases a.len() - i,
{
    if i == a.len() {
        lemma_marks_shift(a, b, 0);
    } else {
        assert((a + b)[i] == a[i]);
        lemma_marks_add_from(a, b, i + 1);
    }
}

/// The placeholders of two texts put together are those of each.
pub proof fn lemma_marks_add(a: Seq<char>, b: Seq<char>)
    ensures
        marks(a + b) == marks(a) + marks(b),
{
    lemma_marks_add_from(a, b, 0);
}

/// A list for `n` values holds `n` placeholders.
pub proof fn lemma_placeholders_marks(n: nat)
    ensures
        marks(placeholders(n)) == n,
    decreases n,
{
    reveal_strlit("?");
    reveal_strlit(", ?");
    reveal_with_fuel(marks_from, 4);
    if n > 1 {
        lemma_placeholders_marks((n - 1) as nat);
        lemma_marks_add(placeholders((n - 1) as nat), ", ?"@);
    }
}

/// Joining texts with a separator that holds no placeholder keeps exactly
/// the placeholders of the texts.
pub proof fn lemma_joined_marks(parts: Seq<Seq<char>>, sep: Seq<char>)
    requires
        marks(sep) == 0,
    ensures
        marks(joined(parts, sep)) == marks_of(parts),
    decreases parts.len(),
{
    if parts.len() == 1 {
        assert(marks_of(parts.drop_last()) == 0);
        assert(parts.last() == parts[0]);
    } else if parts.len() > 1 {
        lemma_joined_marks(parts.drop_last(), sep);
        lemma_marks_add(joined(parts.drop_last(), sep), sep);
        lemma_marks_add(joined(parts.drop_last(), sep) + sep, parts.last());
    }
}

/// Bind texts as parameters and return the placeholder list for them.
pub fn push_text_list(params: &mut Vec<SqlValue>, values: &Vec<String>) -> (r: String)
    ensures
        params_of(final(params)@) == params_of(old(params)@) + text_params(texts(values@)),
        r@ == placeholders(values@.len()),
{
    let n = values.len();
    let mut i: usize = 0;
    while i < n
        invariant
            i <= n == values@.len(),
            params_of(params@) == params_of(old(params)@) + text_params(
                texts(values@.take(i as int)),
            ),
        decreases n - i,
    {
        let ghost prev = params@;
        let v = values[i].clone();
        assert(v@ == values@[i as int]@);
        params.push(SqlValue::Text(v));
        proof {
            assert(params_of(params@) =~= params_of(prev).push(SqlParam::Text(values@[i as int]@)));
            assert(texts(values@.take(i as int + 1)) =~= texts(values@.take(i as int)).push(
                values@[i as int]@,
            ));
            assert(params_of(params@) =~= params_of(old(params)@) + text_params(
                texts(values@.take(i as int + 1)),
            ));
        }
        i = i + 1;
    }
    assert(values@.take(n as int) =~= values@);
    placeholder_list(n)
}

} // verus!
