//! The closed set of uniform kinds a generated shader can require, the shape
//! of the uniform lists the shader compiler can legally produce, and the
//! shader-side names that a draw call binds for such a list.

use vstd::prelude::*;
use vstd::string::StringExecFns;

verus! {

/// One uniform kind that a generated shader may require.
#[derive(Clone, Copy, Debug, PartialEq, Eq, Structural)]
pub enum Uniform {
    Time,
    MouseX,
    MouseY,
}

/// The fixed order in which the shader compiler emits uniform kinds.
pub open spec fn rank(u: Uniform) -> int {
    match u {
        Uniform::Time => 0,
        Uniform::MouseX => 1,
        Uniform::MouseY => 2,
    }
}

/// A uniform list is valid when it is strictly increasing in `rank`: each of
/// the three kinds appears at most once, in the fixed order. The valid lists
/// are exactly the eight subsets of `{Time, MouseX, MouseY}` in that order.
pub open spec fn valid_uniform_list(s: Seq<Uniform>) -> bool {
    forall|i: int, j: int| 0 <= i < j < s.len() ==> rank(s[i]) < rank(s[j])
}

/// The shader-side name bound for a uniform kind.
pub open spec fn uniform_name(u: Uniform) -> Seq<char> {
    match u {
        Uniform::Time => "time"@,
        Uniform::MouseX => "mouse_x"@,
        Uniform::MouseY => "mouse_y"@,
    }
}

/// A valid uniform list never repeats a kind and has at most three entries.
pub proof fn lemma_valid_list_small(s: Seq<Uniform>)
    requires
        valid_uniform_list(s),
    ensures
        forall|i: int, j: int| 0 <= i < j < s.len() ==> s[i] != s[j],
        s.len() <= 3,
{
    assert forall|i: int, j: int| 0 <= i < j < s.len() implies s[i] != s[j] by {
        assert(rank(s[i]) < rank(s[j]));
    }
    if s.len() > 3 {
        assert(rank(s[0]) < rank(s[1]));
        assert(rank(s[1]) < rank(s[2]));
        assert(rank(s[2]) < rank(s[3]));
        assert(0 <= rank(s[0]) && rank(s[3]) <= 2);
        assert(false);
    }
}

/// The valid uniform lists are exactly the eight subsets of the three kinds,
/// each written in the fixed order: no descriptor the shader compiler can
/// legally produce carries any other combination.
pub proof fn lemma_valid_lists_enumerated(s: Seq<Uniform>)
    requires
        valid_uniform_list(s),
    ensures
        s == Seq::<Uniform>::empty() || s == seq![Uniform::Time] || s == seq![Uniform::MouseX] || s == seq![
            Uniform::MouseY,
        ] || s == seq![Uniform::Time, Uniform::MouseX] || s == seq![
            Uniform::Time,
            Uniform::MouseY,
        ] || s == seq![Uniform::MouseX, Uniform::MouseY] || s == seq![
            Uniform::Time,
            Uniform::MouseX,
            Uniform::MouseY,
        ],
{
    lemma_valid_list_small(s);
    if s.len() == 0 {
        assert(s =~= Seq::<Uniform>::empty());
    } else if s.len() == 1 {
        assert(s =~= seq![s[0]]);
    } else if s.len() == 2 {
        assert(rank(s[0]) < rank(s[1]));
        assert(s =~= seq![s[0], s[1]]);
    } else {
        assert(rank(s[0]) < rank(s[1]) && rank(s[1]) < rank(s[2]));
        assert(s =~= seq![s[0], s[1], s[2]]);
    }
}

fn rank_of(u: Uniform) -> (r: u8)
    ensures
        r as int == rank(u),
{
    match u {
        Uniform::Time => 0,
        Uniform::MouseX => 1,
        Uniform::MouseY => 2,
    }
}

/// Decides whether a uniform list is one the shader compiler can legally
/// produce: one of the eight ordered subsets of the three kinds.
pub fn is_valid_uniform_list(us: &Vec<Uniform>) -> (r: bool)
    ensures
        r == valid_uniform_list(us@),
{
    let mut k: usize = 1;
    while k < us.len()
        invariant
            1 <= k,
            forall|i: int, j: int| 0 <= i < j < k ==> rank(us@[i]) < rank(us@[j]),
        decreases us.len() - k,
    {
        if rank_of(us[k - 1]) >= rank_of(us[k]) {
            return false;
        }
        k = k + 1;
    }
    true
}

/// An owned copy of a uniform list.
pub fn copy_uniform_list(us: &Vec<Uniform>) -> (r: Vec<Uniform>)
    ensures
        r@ == us@,
{
    let mut r: Vec<Uniform> = Vec::new();
    let mut k: usize = 0;
    while k < us.len()
        invariant
            k <= us@.len(),
            r@ =~= us@.take(k as int),
        decreases us.len() - k,
    {
        r.push(us[k]);
        k = k + 1;
    }
    proof {
        assert(us@.take(us@.len() as int) =~= us@);
    }
    r
}

fn name_of(u: Uniform) -> (r: String)
    ensures
        r@ == uniform_name(u),
{
    match u {
        Uniform::Time => <String as StringExecFns>::from_str("time"),
        Uniform::MouseX => <String as StringExecFns>::from_str("mouse_x"),
        Uniform::MouseY => <String as StringExecFns>::from_str("mouse_y"),
    }
}

/// The names a draw call binds for a uniform list: exactly one name per
/// entry, in order, and nothing else.
pub fn uniform_names(us: &Vec<Uniform>) -> (r: Vec<String>)
    ensures
        r@.len() == us@.len(),
        forall|i: int| 0 <= i < us@.len() ==> #[trigger] r@[i]@ == uniform_name(us@[i]),
{
    let mut r: Vec<String> = Vec::new();
    let mut k: usize = 0;
    while k < us.len()
        invariant
            k <= us@.len(),
            r@.len() == k,
            forall|i: int| 0 <= i < k ==> #[trigger] r@[i]@ == uniform_name(us@[i]),
        decreases us.len() - k,
    {
        r.push(name_of(us[k]));
        k = k + 1;
    }
    r
}

/// The names a draw call binds, or `None` for a list the shader compiler can
/// never produce (treated as a fatal internal inconsistency by callers).
pub fn uniform_names_checked(us: &Vec<Uniform>) -> (r: Option<Vec<String>>)
    ensures
        r is Some <==> valid_uniform_list(us@),
        r matches Some(names) ==> {
            &&& names@.len() == us@.len()
            &&& forall|i: int| 0 <= i < us@.len() ==> #[trigger] names@[i]@ == uniform_name(us@[i])
        },
{
    if is_valid_uniform_list(us) {
        Some(uniform_names(us))
    } else {
        None
    }
}

} // verus!
