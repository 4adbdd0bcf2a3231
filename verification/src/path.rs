//! The textual derivation-path grammar.
//!
//! A path is a `/`-separated list of components. The first component is
//! ignored (conventionally `m`). Every later component must be a decimal
//! numeral — an optional `+` sign followed by digits — optionally ending in
//! the hardening mark `'`. A plain component denotes its value, which must
//! fit in `u32`; a hardened component denotes its value, which must lie
//! below the hardening offset, plus that offset. Parsing is total: malformed
//! text yields no indices rather than a fault.

use vstd::prelude::*;

verus! {

/// The `/` byte separating path components.
pub const SLASH: u8 = 0x2f;

/// The `+` byte, accepted as an optional sign in front of a numeral.
pub const PLUS: u8 = 0x2b;

/// The `'` byte, the hardening mark at the end of a component.
pub const MARK: u8 = 0x27;

/// The offset added to a hardened component's value.
pub const HARDENED: u32 = 0x8000_0000;

/// An ASCII decimal digit byte.
pub open spec fn is_digit(b: u8) -> bool {
    0x30 <= b <= 0x39
}

/// The value of one decimal digit byte.
pub open spec fn digit_value(b: u8) -> int {
    b - 0x30
}

/// The value of a sequence of decimal digit bytes, most significant first.
pub open spec fn digits_value(s: Seq<u8>) -> int
    decreases s.len(),
{
    if s.len() == 0 {
        0
    } else {
        digits_value(s.drop_last()) * 10 + digit_value(s.last())
    }
}

/// Every byte is a decimal digit.
pub open spec fn all_digits(s: Seq<u8>) -> bool {
    forall|i: int| 0 <= i < s.len() ==> is_digit(s[i])
}

/// The digits of a numeral, once an optional leading sign is removed.
pub open spec fn numeral_digits(s: Seq<u8>) -> Seq<u8> {
    if s.len() > 0 && s[0] == PLUS {
        s.drop_first()
    } else {
        s
    }
}

/// A numeral is what `u32` parsing accepts apart from its range: an optional
/// `+` sign followed by at least one decimal digit.
pub open spec fn is_numeral(s: Seq<u8>) -> bool {
    numeral_digits(s).len() > 0 && all_digits(numeral_digits(s))
}

/// The value of a numeral.
pub open spec fn numeral_value(s: Seq<u8>) -> int {
    digits_value(numeral_digits(s))
}

/// The index denoted by one path component, if any: a numeral fitting in
/// `u32`, or a numeral below the hardening offset followed by the mark.
pub open spec fn component_index(s: Seq<u8>) -> Option<u32> {
    if s.len() > 0 && s.last() == MARK {
        if is_numeral(s.drop_last()) && numeral_value(s.drop_last()) < HARDENED {
            Some((numeral_value(s.drop_last()) + HARDENED) as u32)
        } else {
            None
        }
    } else {
        if is_numeral(s) && numeral_value(s) <= u32::MAX {
            Some(numeral_value(s) as u32)
        } else {
            None
        }
    }
}

/// The components of `s`: split at every separator byte, empty components
/// kept, always at least one component.
pub open spec fn split_components(s: Seq<u8>) -> Seq<Seq<u8>>
    decreases s.len(),
{
    if s.len() == 0 {
        seq![Seq::<u8>::empty()]
    } else {
        let rest = split_components(s.drop_last());
        if s.last() == SLASH {
            rest.push(Seq::<u8>::empty())
        } else {
            rest.update(rest.len() - 1, rest.last().push(s.last()))
        }
    }
}

/// A split always yields at least one component.
pub proof fn lemma_split_components_len(s: Seq<u8>)
    ensures
        split_components(s).len() >= 1,
    decreases s.len(),
{
    if s.len() != 0 {
        lemma_split_components_len(s.drop_last());
    }
}

/// The indices of a list of components, defined only when every component
/// denotes an index.
pub open spec fn components_indices(cs: Seq<Seq<u8>>) -> Option<Seq<u32>>
    decreases cs.len(),
{
    if cs.len() == 0 {
        Some(Seq::<u32>::empty())
    } else {
        match (components_indices(cs.drop_last()), component_index(cs.last())) {
            (Some(v), Some(x)) => Some(v.push(x)),
            _ => None,
        }
    }
}

/// The derivation indices described by a textual path: everything before the
/// first separator is ignored, every later component must denote an index.
/// A path with no separator describes an empty list of indices.
pub open spec fn path_indices(s: Seq<u8>) -> Option<Seq<u32>> {
    components_indices(split_components(s).drop_first())
}

/// Progress of reading one component, byte by byte.
#[derive(Clone, Copy)]
enum CompProgress {
    /// Nothing read yet.
    Start,
    /// Exactly the optional sign read.
    Sign,
    /// A numeral so far; `over` records that its value no longer fits `u32`.
    Digits { value: u32, over: bool },
    /// A numeral followed by the hardening mark; `ok` records that the value
    /// was below the hardening offset, and `index` is then the denoted index.
    Marked { index: u32, ok: bool },
    /// No extension of what was read denotes an index.
    Dead,
}

/// The shapes from which an index can still be denoted by reading on.
spec fn numeral_prefix(s: Seq<u8>) -> bool {
    s.len() == 0 || s == seq![PLUS] || is_numeral(s)
}

/// A numeral followed by the hardening mark.
spec fn marked_shape(s: Seq<u8>) -> bool {
    s.len() > 0 && s.last() == MARK && is_numeral(s.drop_last())
}

/// What each progress state says of the bytes read so far.
spec fn progress_inv(st: CompProgress, cur: Seq<u8>) -> bool {
    match st {
        CompProgress::Start => cur == Seq::<u8>::empty(),
        CompProgress::Sign => cur == seq![PLUS],
        CompProgress::Digits { value, over } => is_numeral(cur) && (if over {
            numeral_value(cur) > u32::MAX
        } else {
            numeral_value(cur) == value
        }),
        CompProgress::Marked { index, ok } => marked_shape(cur) && (if ok {
            numeral_value(cur.drop_last()) < HARDENED && index == numeral_value(cur.drop_last())
                + HARDENED
        } else {
            numeral_value(cur.drop_last()) >= HARDENED
        }),
        CompProgress::Dead => !numeral_prefix(cur) && !marked_shape(cur),
    }
}

/// The index denoted once the component ends in this state.
spec fn finished_index(st: CompProgress) -> Option<u32> {
    match st {
        CompProgress::Digits { value, over } => if !over {
            Some(value)
        } else {
            None
        },
        CompProgress::Marked { index, ok } => if ok {
            Some(index)
        } else {
            None
        },
        _ => None,
    }
}

/// A numeral's last byte is a digit, shared by its digit part.
proof fn lemma_numeral_last(s: Seq<u8>)
    requires
        is_numeral(s),
    ensures
        s.len() > 0,
        s.last() == numeral_digits(s).last(),
        is_digit(s.last()),
{
    let d = numeral_digits(s);
    assert(d[d.len() - 1] == s[s.len() - 1]);
}

/// Ending a component in a state faithful to its bytes yields exactly the
/// index the grammar assigns to those bytes.
proof fn lemma_finished(st: CompProgress, cur: Seq<u8>)
    requires
        progress_inv(st, cur),
    ensures
        finished_index(st) == component_index(cur),
{
    match st {
        CompProgress::Start => {
            assert(numeral_digits(cur).len() == 0);
        },
        CompProgress::Sign => {
            assert(cur.last() == PLUS);
            assert(numeral_digits(cur) =~= Seq::<u8>::empty());
        },
        CompProgress::Digits { value, over } => {
            lemma_numeral_last(cur);
        },
        CompProgress::Marked { index, ok } => {
        },
        CompProgress::Dead => {
            if cur.len() > 0 && cur.last() == MARK {
                assert(!is_numeral(cur.drop_last()));
            } else {
                if cur.len() == 0 {
                    assert(numeral_prefix(cur));
                }
                assert(!is_numeral(cur));
            }
        },
    }
}

/// Appending a byte to a nonempty sequence appends it to its digit part.
proof fn lemma_numeral_digits_push(s: Seq<u8>, b: u8)
    requires
        s.len() > 0,
    ensures
        numeral_digits(s.push(b)) =~= numeral_digits(s).push(b),
{
    assert(s.push(b)[0] == s[0]);
    if s[0] == PLUS {
        assert(s.push(b).drop_first() =~= s.drop_first().push(b));
    } else {
        assert(s.push(b) =~= s.push(b));
    }
}

/// The value of a digit sequence grows digit by digit.
proof fn lemma_digits_value_push(s: Seq<u8>, b: u8)
    ensures
        digits_value(s.push(b)) == digits_value(s) * 10 + digit_value(b),
        all_digits(s.push(b)) == (all_digits(s) && is_digit(b)),
{
    assert(s.push(b).drop_last() =~= s);
    assert(s.push(b).last() == b);
    if all_digits(s) && is_digit(b) {
        assert forall|i: int| 0 <= i < s.push(b).len() implies is_digit(s.push(b)[i]) by {
            if i < s.len() {
                assert(s.push(b)[i] == s[i]);
            }
        }
    }
    if all_digits(s.push(b)) {
        assert forall|i: int| 0 <= i < s.len() implies is_digit(s[i]) by {
            assert(s[i] == s.push(b)[i]);
        }
        assert(is_digit(b));
    }
}

/// A digit sequence has a nonnegative value.
proof fn lemma_digits_value_nonneg(s: Seq<u8>)
    requires
        all_digits(s),
    ensures
        digits_value(s) >= 0,
    decreases s.len(),
{
    if s.len() != 0 {
        assert(is_digit(s.last()));
        assert forall|i: int| 0 <= i < s.drop_last().len() implies is_digit(s.drop_last()[i]) by {
            assert(s.drop_last()[i] == s[i]);
        }
        lemma_digits_value_nonneg(s.drop_last());
    }
}

/// One byte of progress: the state keeps describing the bytes read so far.
proof fn lemma_step(st: CompProgress, cur: Seq<u8>, b: u8)
    requires
        progress_inv(st, cur),
        b != SLASH,
    ensures
        progress_inv(advance_spec(st, b), cur.push(b)),
{
    let next = cur.push(b);
    assert(next.last() == b);
    assert(next.drop_last() =~= cur);
    match st {
        CompProgress::Start => {
            assert(next =~= seq![b]);
            if b == PLUS {
                assert(next =~= seq![PLUS]);
            } else if 0x30 <= b <= 0x39 {
                assert(numeral_digits(next) =~= next);
                assert(next.drop_last() =~= Seq::<u8>::empty());
                assert(digits_value(next) == digit_value(b));
            } else {
                if numeral_prefix(next) {
                    if next == seq![PLUS] {
                        assert(next[0] == PLUS);
                    }
                    if is_numeral(next) {
                        assert(numeral_digits(next) =~= next);
                        assert(is_digit(next[0]));
                    }
                }
                assert(!marked_shape(next)) by {
                    if marked_shape(next) {
                        assert(!is_numeral(next.drop_last()));
                    }
                }
            }
        },
        CompProgress::Sign => {
            assert(cur[0] == PLUS);
            assert(next[0] == PLUS);
            assert(next.len() == 2);
            assert(numeral_digits(next) =~= seq![b]);
            if 0x30 <= b <= 0x39 {
                assert(seq![b].drop_last() =~= Seq::<u8>::empty());
                assert(seq![b].last() == b);
                assert(digits_value(Seq::<u8>::empty()) == 0);
                assert(digits_value(seq![b]) == digit_value(b));
            } else {
                assert(numeral_digits(next)[0] == b);
                assert(!is_numeral(next));
                if next == seq![PLUS] {
                    assert(next.len() == 1);
                }
                assert(!marked_shape(next)) by {
                    if marked_shape(next) {
                        assert(is_numeral(cur));
                        assert(numeral_digits(cur).len() == 0);
                    }
                }
            }
        },
        CompProgress::Digits { value, over } => {
            lemma_numeral_last(cur);
            lemma_numeral_digits_push(cur, b);
            lemma_digits_value_push(numeral_digits(cur), b);
            lemma_digits_value_nonneg(numeral_digits(cur));
            if 0x30 <= b <= 0x39 {
                assert(is_numeral(next));
                assert(numeral_value(next) == numeral_value(cur) * 10 + digit_value(b));
            } else if b == MARK {
                assert(marked_shape(next));
            } else {
                assert(!is_numeral(next));
                assert(next.len() >= 2);
                if next == seq![PLUS] {
                    assert(next.len() == 1);
                }
                assert(!marked_shape(next));
            }
        },
        CompProgress::Marked { index, ok } => {
            assert(cur.last() == MARK);
            assert(!is_numeral(cur)) by {
                if is_numeral(cur) {
                    lemma_numeral_last(cur);
                }
            }
            assert(!is_numeral(next)) by {
                if is_numeral(next) {
                    lemma_numeral_digits_push(cur, b);
                    let nd = numeral_digits(cur);
                    if nd.len() > 0 {
                        assert(numeral_digits(next)[nd.len() - 1] == nd.last());
                        assert(nd.last() == cur.last());
                        assert(is_digit(MARK));
                    } else {
                        assert(is_numeral(cur.drop_last()));
                        assert(cur.drop_last().len() > 0);
                        assert(cur.len() >= 2);
                        assert(nd.len() == cur.len() - 1 || nd.len() == cur.len());
                    }
                }
            }
            assert(next.len() >= 2);
            if next == seq![PLUS] {
                assert(next.len() == 1);
            }
            assert(!marked_shape(next)) by {
                if marked_shape(next) {
                    assert(b == MARK);
                    assert(next.drop_last() =~= cur);
                }
            }
        },
        CompProgress::Dead => {
            assert(cur.len() > 0);
            assert(!is_numeral(next)) by {
                if is_numeral(next) {
                    lemma_numeral_digits_push(cur, b);
                    let nd = numeral_digits(cur);
                    if nd.len() > 0 {
                        assert forall|i: int| 0 <= i < nd.len() implies is_digit(nd[i]) by {
                            assert(numeral_digits(next)[i] == nd[i]);
                        }
                        assert(is_numeral(cur));
                    } else {
                        assert(cur.len() > 0 && cur[0] == PLUS && cur.len() == 1);
                        assert(cur =~= seq![PLUS]);
                    }
                }
            }
            if next == seq![PLUS] {
                assert(cur.len() == 0);
            }
            assert(!marked_shape(next)) by {
                if marked_shape(next) {
                    assert(next.drop_last() =~= cur);
                }
            }
        },
    }
}

/// The next progress state after reading one more byte of a component.
spec fn advance_spec(st: CompProgress, b: u8) -> CompProgress {
    match st {
        CompProgress::Start => if b == PLUS {
            CompProgress::Sign
        } else if 0x30 <= b <= 0x39 {
            CompProgress::Digits { value: (b - 0x30) as u32, over: false }
        } else {
            CompProgress::Dead
        },
        CompProgress::Sign => if 0x30 <= b <= 0x39 {
            CompProgress::Digits { value: (b - 0x30) as u32, over: false }
        } else {
            CompProgress::Dead
        },
        CompProgress::Digits { value, over } => if 0x30 <= b <= 0x39 {
            if over || value * 10 + digit_value(b) > u32::MAX {
                CompProgress::Digits { value: 0, over: true }
            } else {
                CompProgress::Digits { value: (value * 10 + digit_value(b)) as u32, over: false }
            }
        } else if b == MARK {
            if !over && value < HARDENED {
                CompProgress::Marked { index: (value + HARDENED) as u32, ok: true }
            } else {
                CompProgress::Marked { index: 0, ok: false }
            }
        } else {
            CompProgress::Dead
        },
        CompProgress::Marked { .. } => CompProgress::Dead,
        CompProgress::Dead => CompProgress::Dead,
    }
}

/// Reads one more byte of a component.
fn advance(st: CompProgress, b: u8) -> (r: CompProgress)
    requires
        b != SLASH,
    ensures
        r == advance_spec(st, b),
{
    match st {
        CompProgress::Start => {
            if b == PLUS {
                CompProgress::Sign
            } else if 0x30 <= b && b <= 0x39 {
                CompProgress::Digits { value: (b - 0x30) as u32, over: false }
            } else {
                CompProgress::Dead
            }
        },
        CompProgress::Sign => {
            if 0x30 <= b && b <= 0x39 {
                CompProgress::Digits { value: (b - 0x30) as u32, over: false }
            } else {
                CompProgress::Dead
            }
        },
        CompProgress::Digits { value, over } => {
            if 0x30 <= b && b <= 0x39 {
                let grown: u64 = (value as u64) * 10 + ((b - 0x30) as u64);
                if over || grown > (u32::MAX as u64) {
                    CompProgress::Digits { value: 0, over: true }
                } else {
                    CompProgress::Digits { value: grown as u32, over: false }
                }
            } else if b == MARK {
                if !over && value < HARDENED {
                    CompProgress::Marked { index: value + HARDENED, ok: true }
                } else {
                    CompProgress::Marked { index: 0, ok: false }
                }
            } else {
                CompProgress::Dead
            }
        },
        CompProgress::Marked { .. } => CompProgress::Dead,
        CompProgress::Dead => CompProgress::Dead,
    }
}

/// Ends the component read so far.
fn finish(st: CompProgress) -> (r: Option<u32>)
    ensures
        r == finished_index(st),
{
    match st {
        CompProgress::Digits { value, over } => {
            if !over {
                Some(value)
            } else {
                None
            }
        },
        CompProgress::Marked { index, ok } => {
            if ok {
                Some(index)
            } else {
                None
            }
        },
        _ => None,
    }
}

/// Parses a textual derivation path into its indices: exactly the indices
/// the grammar assigns, and nothing on malformed text. Total: no input
/// faults.
pub fn parse_derivation_path(bytes: &[u8]) -> (r: Option<Vec<u32>>)
    ensures
        (r matches Some(v) ==> path_indices(bytes@) == Some(v@)),
        (r is None ==> path_indices(bytes@) is None),
{
    let n = bytes.len();
    let mut j: usize = 0;
    let mut seen_sep: bool = false;
    let mut ok: bool = true;
    let mut indices: Vec<u32> = Vec::new();
    let mut st = CompProgress::Start;
    proof {
        assert(bytes@.take(0) =~= Seq::<u8>::empty());
    }
    while j < n
        invariant
            0 <= j <= n == bytes@.len(),
            seen_sep == (split_components(bytes@.take(j as int)).len() > 1),
            !seen_sep ==> ok && indices@ =~= Seq::<u32>::empty(),
            seen_sep ==> progress_inv(st, split_components(bytes@.take(j as int)).last()),
            seen_sep ==> (ok <==> components_indices(
                split_components(bytes@.take(j as int)).drop_last().drop_first(),
            ) is Some),
            seen_sep && ok ==> components_indices(
                split_components(bytes@.take(j as int)).drop_last().drop_first(),
            ) == Some(indices@),
        decreases n - j,
    {
        let ghost p = bytes@.take(j as int);
        let ghost cs = split_components(p);
        proof {
            lemma_split_components_len(p);
            assert(bytes@.take(j as int + 1) =~= p.push(bytes@[j as int]));
            assert(bytes@.take(j as int + 1).drop_last() =~= p);
        }
        let b = bytes[j];
        let ghost cs2 = split_components(bytes@.take(j as int + 1));
        if b == SLASH {
            proof {
                assert(cs2 =~= cs.push(Seq::<u8>::empty()));
            }
            if !seen_sep {
                seen_sep = true;
                proof {
                    assert(cs.len() == 1);
                    assert(cs2.drop_last() =~= cs);
                    assert(cs2.drop_last().drop_first() =~= Seq::<Seq<u8>>::empty());
                }
            } else {
                let ci = finish(st);
                proof {
                    lemma_finished(st, cs.last());
                    assert(cs2.drop_last() =~= cs);
                    assert(cs2.drop_last().drop_first() =~= cs.drop_last().drop_first().push(
                        cs.last(),
                    ));
                    assert(cs2.drop_last().drop_first().drop_last() =~= cs.drop_last().drop_first());
                }
                match ci {
                    Some(x) => {
                        if ok {
                            indices.push(x);
                        }
                    },
                    None => {
                        ok = false;
                    },
                }
            }
            st = CompProgress::Start;
        } else {
            proof {
                assert(cs2 =~= cs.update(cs.len() - 1, cs.last().push(b)));
                assert(cs2.drop_last() =~= cs.drop_last());
                assert(cs2.last() == cs.last().push(b));
                if seen_sep {
                    lemma_step(st, cs.last(), b);
                }
            }
            if seen_sep {
                st = advance(st, b);
            }
        }
        j += 1;
    }
    proof {
        assert(bytes@.take(n as int) =~= bytes@);
    }
    let ghost cs = split_components(bytes@);
    proof {
        lemma_split_components_len(bytes@);
    }
    if !seen_sep {
        proof {
            assert(cs.drop_first() =~= Seq::<Seq<u8>>::empty());
        }
        Some(indices)
    } else {
        let ci = finish(st);
        proof {
            lemma_finished(st, cs.last());
            assert(cs.drop_first() =~= cs.drop_last().drop_first().push(cs.last()));
            assert(cs.drop_first().drop_last() =~= cs.drop_last().drop_first());
        }
        match ci {
            Some(x) => {
                if ok {
                    indices.push(x);
                    Some(indices)
                } else {
                    None
                }
            },
            None => None,
        }
    }
}

} // verus!
