//! The decision half of the host-OS synchronization layer: classifying the
//! result word of a wait over several handles, and the UTF-16 layout of the
//! nul-terminated names such objects are opened with. The waits themselves
//! are host calls and stay with the caller.

use vstd::prelude::*;

verus! {

/// Outcome of waiting on one or more synchronization objects.
#[derive(Clone, Copy, Debug, PartialEq, Eq, Structural)]
pub enum WaitState {
    /// The object at this index was signaled.
    Signaled(usize),
    /// The object at this index was abandoned by its holder.
    Abandoned(usize),
    /// The timeout elapsed first.
    TimedOut,
}

/// What a wait over several handles reports for a result word: indices
/// below 64 are signals, indices offset by 128 are abandoned holders,
/// 0x102 is the timeout, anything else is a failure.
pub open spec fn spec_classify_wait(code: u32) -> Option<WaitState> {
    if code <= 63 {
        Some(WaitState::Signaled(code as usize))
    } else if 128 <= code <= 191 {
        Some(WaitState::Abandoned((code - 128) as usize))
    } else if code == 0x102 {
        Some(WaitState::TimedOut)
    } else {
        None
    }
}

/// Classifies the result word of a wait over several handles; `None` means
/// the wait itself failed.
pub fn classify_wait_result(code: u32) -> (r: Option<WaitState>)
    ensures
        r == spec_classify_wait(code),
{
    if code <= 63 {
        Some(WaitState::Signaled(code as usize))
    } else if 128 <= code && code <= 191 {
        Some(WaitState::Abandoned((code - 128) as usize))
    } else if code == 0x102 {
        Some(WaitState::TimedOut)
    } else {
        None
    }
}

/// The UTF-16 code units of one character: one unit inside the basic
/// plane, a surrogate pair beyond it.
pub open spec fn spec_utf16_units(c: char) -> Seq<u16> {
    if (c as u32) < 0x10000 {
        seq![c as u16]
    } else {
        seq![
            (0xD800 + ((((c as u32) - 0x10000) as u32) >> 10)) as u16,
            (0xDC00 + ((((c as u32) - 0x10000) as u32) & 0x3FF)) as u16,
        ]
    }
}

/// The UTF-16 code units of a character run.
pub open spec fn spec_utf16(s: Seq<char>) -> Seq<u16>
    decreases s.len(),
{
    if s.len() == 0 {
        Seq::empty()
    } else {
        spec_utf16_units(s[0]) + spec_utf16(s.drop_first())
    }
}

/// Encoding one more character appends its units.
pub proof fn lemma_utf16_take_succ(s: Seq<char>, i: int)
    requires
        0 <= i < s.len(),
    ensures
        spec_utf16(s.take(i + 1)) == spec_utf16(s.take(i)) + spec_utf16_units(s[i]),
    decreases i,
{
    if i == 0 {
        assert(s.take(1).drop_first() =~= Seq::<char>::empty());
        assert(s.take(0) =~= Seq::<char>::empty());
        assert(spec_utf16(s.take(1)) =~= spec_utf16(s.take(0)) + spec_utf16_units(s[0]));
    } else {
        lemma_utf16_take_succ(s.drop_first(), i - 1);
        assert(s.take(i + 1).drop_first() =~= s.drop_first().take(i));
        assert(s.take(i).drop_first() =~= s.drop_first().take(i - 1));
        assert(s.take(i + 1)[0] == s[0]);
        assert(s.take(i)[0] == s[0]);
        assert(s.drop_first()[i - 1] == s[i]);
        assert(spec_utf16(s.take(i + 1)) =~= spec_utf16(s.take(i)) + spec_utf16_units(s[i]));
    }
}

/// The nul-terminated UTF-16 form of a name, as the host's wide-string
/// calls expect it.
pub fn convert_to_utf16(s: &str) -> (r: Vec<u16>)
    ensures
        r@ == spec_utf16(s@) + seq![0u16],
{
    let n = s.unicode_len();
    let mut out: Vec<u16> = Vec::new();
    proof {
        assert(s@.take(0) =~= Seq::<char>::empty());
        assert(out@ =~= spec_utf16(s@.take(0)));
    }
    let mut i: usize = 0;
    while i < n
        invariant
            i <= n,
            n == s@.len(),
            out@ == spec_utf16(s@.take(i as int)),
        decreases n - i,
    {
        let c = s.get_char(i);
        let v = c as u32;
        if v < 0x10000 {
            out.push(#[verifier::truncate] (v as u16));
        } else {
            let off = v - 0x10000;
            proof {
                assert((off >> 10) <= 0x3FFFFFu32 && (off & 0x3FF) <= 0x3FFu32) by (bit_vector);
            }
            out.push(#[verifier::truncate] ((0xD800 + (off >> 10)) as u16));
            out.push(#[verifier::truncate] ((0xDC00 + (off & 0x3FF)) as u16));
        }
        proof {
            lemma_utf16_take_succ(s@, i as int);
            assert(out@ =~= spec_utf16(s@.take(i as int + 1)));
        }
        i = i + 1;
    }
    out.push(0);
    proof {
        assert(s@.take(n as int) =~= s@);
        assert(out@ =~= spec_utf16(s@) + seq![0u16]);
    }
    out
}

} // verus!
