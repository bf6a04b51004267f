use vstd::prelude::*;

verus! {

/// `s` holds two consecutive dots somewhere.
pub open spec fn has_double_dot(s: Seq<char>) -> bool {
    exists|i: int| #[trigger] dot_pair_at(s, i)
}

/// Positions `i` and `i + 1` of `s` both hold a dot.
pub open spec fn dot_pair_at(s: Seq<char>, i: int) -> bool {
    0 <= i && i + 1 < s.len() && s[i] == '.' && s[i + 1] == '.'
}

/// The characters of `s`, in order.
pub fn chars_of(s: &str) -> (v: Vec<char>)
    ensures
        v@ == s@,
{
    let mut v: Vec<char> = Vec::new();
    for c in it: s.chars()
        invariant
            v@ == it.seq().take(it.index() as int),
    {
        v.push(c);
    }
    v
}


/// Whether `s` holds two consecutive dots somewhere.
pub fn contains_double_dot(s: &str) -> (found: bool)
    ensures
        found == has_double_dot(s@),
{
    let chars = chars_of(s);
    let n = chars.len();
    if n < 2 {
        assert forall|j: int| !#[trigger] dot_pair_at(s@, j) by {}
        return false;
    }
    let mut i: usize = 0;
    while i < n - 1
        invariant
            chars@ == s@,
            n == chars.len(),
            n >= 2,
            i <= n - 1,
            forall|j: int| 0 <= j < i ==> !#[trigger] dot_pair_at(s@, j),
        decreases n - i,
    {
        if chars[i] == '.' && chars[i + 1] == '.' {
            assert(dot_pair_at(s@, i as int));
            return true;
        }
        i += 1;
    }
    assert forall|j: int| !#[trigger] dot_pair_at(s@, j) by {
        if 0 <= j < i {
        }
    }
    false
}

/// Two dots cannot meet across a join unless `a` ends and `b` starts with
/// a dot.
pub proof fn lemma_join_without_double_dot(a: Seq<char>, b: Seq<char>)
    requires
        !has_double_dot(a),
        !has_double_dot(b),
        a.len() == 0 || b.len() == 0 || a.last() != '.' || b[0] != '.',
    ensures
        !has_double_dot(a + b),
{
    assert forall|i: int| !#[trigger] dot_pair_at(a + b, i) by {
        if dot_pair_at(a + b, i) {
            if i + 1 < a.len() {
                assert(dot_pair_at(a, i));
            } else if i >= a.len() {
                assert(dot_pair_at(b, i - a.len()));
            } else {
                assert(a.last() == '.' && b[0] == '.');
            }
        }
    }
}

} // verus!
