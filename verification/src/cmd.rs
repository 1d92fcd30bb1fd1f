//! Incremental command-line tokenizer and grammar matcher.
//!
//! Bytes arrive one at a time from the serial link. They are accumulated in a
//! fixed ring until a carriage return or line feed ends the line; the line is
//! then matched against a fixed, ordered grammar whose clauses either mutate
//! the shared `Control` block or emit a one-shot `Requests` value. A clause
//! whose integer argument is malformed is skipped whole: no field is touched.

use crate::types::{Control, Requests};
use vstd::prelude::*;

verus! {

/// Size of the line ring; a line that never terminates wraps at this length
/// and silently starts over.
pub const BUFFER_SIZE: usize = 512;

const CR: u8 = 13;
const LF: u8 = 10;

// ---------------------------------------------------------------------------
// Integer arguments
// ---------------------------------------------------------------------------

/// ASCII decimal digit.
pub open spec fn is_digit(b: u8) -> bool {
    48 <= b <= 57
}

pub open spec fn all_digits(s: Seq<u8>) -> bool {
    forall|i: int| 0 <= i < s.len() ==> is_digit(#[trigger] s[i])
}

/// Value denoted by a string of decimal digits, most significant first.
pub open spec fn digits_val(s: Seq<u8>) -> int
    decreases s.len(),
{
    if s.len() == 0 {
        0
    } else {
        digits_val(s.drop_last()) * 10 + (s.last() - 48)
    }
}

pub proof fn lemma_digits_val_nonneg(s: Seq<u8>)
    requires
        all_digits(s),
    ensures
        digits_val(s) >= 0,
    decreases s.len(),
{
    if s.len() > 0 {
        assert(all_digits(s.drop_last())) by {
            assert(forall|i: int| 0 <= i < s.len() - 1 ==> is_digit(#[trigger] s.drop_last()[i]));
        }
        lemma_digits_val_nonneg(s.drop_last());
    }
}

/// A digit string is worth at least any of its prefixes.
pub proof fn lemma_digits_val_prefix(s: Seq<u8>, j: int)
    requires
        all_digits(s),
        0 <= j <= s.len(),
    ensures
        digits_val(s.take(j)) <= digits_val(s),
    decreases s.len(),
{
    if j < s.len() {
        assert(all_digits(s.drop_last())) by {
            assert(forall|i: int| 0 <= i < s.len() - 1 ==> is_digit(#[trigger] s.drop_last()[i]));
        }
        assert(s.take(j) =~= s.drop_last().take(j));
        lemma_digits_val_prefix(s.drop_last(), j);
        lemma_digits_val_nonneg(s.drop_last());
        assert(digits_val(s) >= digits_val(s.drop_last()));
    } else {
        assert(s.take(j) =~= s);
    }
}

/// The integer a command argument denotes: an optional sign, then at least
/// one digit and nothing else, rejected when the value leaves the `i32`
/// range: the acceptance rule of the standard library's decimal parse.
pub open spec fn spec_parse_i32(s: Seq<u8>) -> Option<i32> {
    if s.len() == 0 {
        None
    } else {
        let neg = s[0] == 45;
        let ds = if s[0] == 43 || s[0] == 45 {
            s.drop_first()
        } else {
            s
        };
        if ds.len() == 0 || !all_digits(ds) {
            None
        } else {
            let v = if neg {
                -digits_val(ds)
            } else {
                digits_val(ds)
            };
            if i32::MIN <= v <= i32::MAX {
                Some(v as i32)
            } else {
                None
            }
        }
    }
}

/// Parse the bytes of `s` from `start` on as a decimal integer.
#[verifier::loop_isolation(false)]
pub fn parse_i32_from(s: &[u8], start: usize) -> (r: Option<i32>)
    requires
        start <= s@.len(),
    ensures
        r == spec_parse_i32(s@.skip(start as int)),
{
    let ghost whole = s@.skip(start as int);
    let len = s.len();
    if start >= len {
        return None;
    }
    let first = s[start];
    let neg = first == 45;
    let ds_start: usize = if first == 43 || first == 45 {
        start + 1
    } else {
        start
    };
    let ghost ds = s@.skip(ds_start as int);
    assert(ds =~= if whole[0] == 43 || whole[0] == 45 {
        whole.drop_first()
    } else {
        whole
    });
    if ds_start >= len {
        return None;
    }
    let mut acc: i64 = 0;
    let mut i = ds_start;
    while i < len
        invariant
            ds_start <= i <= len,
            len == s@.len(),
            ds_start <= len,
            ds =~= s@.skip(ds_start as int),
            all_digits(ds.take(i - ds_start)),
            acc == digits_val(ds.take(i - ds_start)),
            0 <= acc <= 2147483648,
        decreases len - i,
    {
        let b = s[i];
        if b < 48 || b > 57 {
            proof {
                assert(whole[0] == s@[start as int]);
                assert(ds[i - ds_start] == s@[i as int]);
                assert(!all_digits(ds));
            }
            return None;
        }
        assert(ds.take(i + 1 - ds_start).drop_last() =~= ds.take(i - ds_start));
        assert(ds.take(i + 1 - ds_start).last() == b);
        acc = acc * 10 + ((b - 48) as i64);
        i = i + 1;
        assert(all_digits(ds.take(i - ds_start))) by {
            assert(forall|k: int|
                0 <= k < i - ds_start ==> is_digit(#[trigger] ds.take(i - ds_start)[k]));
        }
        if acc > 2147483648 {
            proof {
                assert(whole[0] == s@[start as int]);
                assert(all_digits(ds.take(i - ds_start)));
                if all_digits(ds) {
                    lemma_digits_val_prefix(ds, i - ds_start);
                    lemma_digits_val_nonneg(ds);
                    assert(digits_val(ds) >= acc);
                    assert(digits_val(ds) > 2147483648);
                }
            }
            return None;
        }
    }
    assert(ds.take(i - ds_start) =~= ds);
    if neg {
        Some((-acc) as i32)
    } else {
        if acc > 2147483647 {
            None
        } else {
            Some(acc as i32)
        }
    }
}

// ---------------------------------------------------------------------------
// Byte-string helpers
// ---------------------------------------------------------------------------

/// Exact equality of two byte strings.
#[verifier::loop_isolation(false)]
pub fn slice_eq(a: &[u8], b: &[u8]) -> (r: bool)
    ensures
        r == (a@ == b@),
{
    if a.len() != b.len() {
        assert(a@ != b@) by {
            assert(a@.len() != b@.len());
        }
        return false;
    }
    let len = a.len();
    let mut i: usize = 0;
    while i < len
        invariant
            i <= len,
            len == a@.len() == b@.len(),
            forall|j: int| 0 <= j < i ==> a@[j] == b@[j],
        decreases len - i,
    {
        if a[i] != b[i] {
            return false;
        }
        i = i + 1;
    }
    proof {
        assert(a@ =~= b@);
    }
    true
}

/// Does `a` begin with `b`?
#[verifier::loop_isolation(false)]
pub fn starts_with(a: &[u8], b: &[u8]) -> (r: bool)
    ensures
        r == (b@.len() <= a@.len() && a@.take(b@.len() as int) == b@),
{
    if b.len() > a.len() {
        return false;
    }
    let len = b.len();
    let mut i: usize = 0;
    while i < len
        invariant
            i <= len,
            len == b@.len(),
            len <= a@.len(),
            forall|j: int| 0 <= j < i ==> a@[j] == b@[j],
        decreases len - i,
    {
        if a[i] != b[i] {
            assert(a@.take(len as int)[i as int] != b@[i as int]);
            return false;
        }
        i = i + 1;
    }
    proof {
        assert(a@.take(len as int) =~= b@);
    }
    true
}

// ---------------------------------------------------------------------------
// Line accumulation
// ---------------------------------------------------------------------------

/// Line terminator: carriage return or line feed.
pub open spec fn is_term(b: u8) -> bool {
    b == 13 || b == 10
}

/// The pending line after one more byte: a terminator either emits the line
/// or is ignored when nothing is pending; any other byte is appended, except
/// that a line reaching the ring size wraps and silently starts over.
pub open spec fn push_pending(p: Seq<u8>, b: u8) -> Seq<u8> {
    if is_term(b) {
        if p.len() == 0 {
            p
        } else {
            Seq::empty()
        }
    } else if p.len() + 1 == BUFFER_SIZE as int {
        Seq::empty()
    } else {
        p.push(b)
    }
}

/// The completed line one more byte yields, if any.
pub open spec fn push_line(p: Seq<u8>, b: u8) -> Option<Seq<u8>> {
    if is_term(b) && p.len() > 0 {
        Some(p)
    } else {
        None
    }
}

// ---------------------------------------------------------------------------
// Grammar
// ---------------------------------------------------------------------------

/// Effect of one completed line on the parameter block: the ordered grammar,
/// first match wins. Keyword clauses compare the whole line; clauses with an
/// integer argument match on their prefix and are skipped whole when the
/// argument is malformed.
pub open spec fn spec_apply_line(line: Seq<u8>, c: Control) -> (Control, Option<Requests>) {
    if line == seq![116u8, 109u8, 111u8, 110u8] {  // tmon
        (Control { telemetry: true, ..c }, None)
    } else if line == seq![116u8, 109u8, 111u8, 102u8, 102u8] {  // tmoff
        (Control { telemetry: false, ..c }, None)
    } else if line.len() >= 3 && line.take(3) == seq![112u8, 107u8, 61u8] {  // pk=
        match spec_parse_i32(line.skip(3)) {
            Some(v) => (Control { pk: v, ..c }, None),
            None => (c, None),
        }
    } else if line.len() >= 3 && line.take(3) == seq![105u8, 107u8, 61u8] {  // ik=
        match spec_parse_i32(line.skip(3)) {
            Some(v) => (Control { ik: v, ..c }, None),
            None => (c, None),
        }
    } else if line.len() >= 3 && line.take(3) == seq![100u8, 107u8, 61u8] {  // dk=
        match spec_parse_i32(line.skip(3)) {
            Some(v) => (Control { dk: v, ..c }, None),
            None => (c, None),
        }
    } else if line.len() >= 5 && line.take(5) == seq![112u8, 105u8, 112u8, 107u8, 61u8] {  // pipk=
        match spec_parse_i32(line.skip(5)) {
            Some(v) => (Control { pitch_pk: v, ..c }, None),
            None => (c, None),
        }
    } else if line.len() >= 4 && line.take(4) == seq![114u8, 112u8, 107u8, 61u8] {  // rpk=
        match spec_parse_i32(line.skip(4)) {
            Some(v) => (Control { roll_pk: v, ..c }, None),
            None => (c, None),
        }
    } else if line.len() >= 4 && line.take(4) == seq![121u8, 112u8, 107u8, 61u8] {  // ypk=
        match spec_parse_i32(line.skip(4)) {
            Some(v) => (Control { yaw_pk: v, ..c }, None),
            None => (c, None),
        }
    } else if line.len() >= 8 && line.take(8) == seq![
        116u8,
        116u8,
        104u8,
        117u8,
        114u8,
        115u8,
        116u8,
        61u8,
    ] {  // tthurst=
        match spec_parse_i32(line.skip(8)) {
            Some(v) => (Control { thrust: v, ..c }, None),
            None => (c, None),
        }
    } else if line.len() >= 3 && line.take(3) == seq![112u8, 116u8, 61u8] {  // pt=
        match spec_parse_i32(line.skip(3)) {
            Some(v) => (
                Control {
                    target_degrees: crate::types::TargetDegrees { pitch: v, ..c.target_degrees },
                    ..c
                },
                None,
            ),
            None => (c, None),
        }
    } else if line == seq![115u8, 116u8, 97u8, 116u8, 117u8, 115u8] {  // status
        (c, Some(Requests::Status))
    } else if line == seq![98u8, 111u8, 111u8, 116u8] {  // boot
        (c, Some(Requests::Boot))
    } else if line == seq![114u8, 101u8, 115u8, 101u8, 116u8] {  // reset
        (c, Some(Requests::Reset))
    } else {
        (c, None)
    }
}

// ---------------------------------------------------------------------------
// The tokenizer
// ---------------------------------------------------------------------------

/// Incremental line tokenizer over a fixed 512-byte ring.
pub struct Cmd {
    buffer: Vec<u8>,
    pos: usize,
}

/// A fresh tokenizer.
pub fn create() -> (c: Cmd)
    ensures
        c.wf(),
        c.pending() == Seq::<u8>::empty(),
{
    Cmd::new()
}

impl Cmd {
    /// The ring is allocated whole and the write position stays inside it.
    pub closed spec fn wf(self) -> bool {
        self.buffer@.len() == BUFFER_SIZE as int && self.pos < BUFFER_SIZE
    }

    /// The bytes of the line accumulated so far.
    pub closed spec fn pending(self) -> Seq<u8> {
        self.buffer@.take(self.pos as int)
    }

    /// A fresh tokenizer with an empty ring.
    pub fn new() -> (c: Cmd)
        ensures
            c.wf(),
            c.pending() == Seq::<u8>::empty(),
    {
        let buffer: Vec<u8> = vec![0u8; BUFFER_SIZE];
        let c = Cmd { buffer, pos: 0 };
        proof {
            assert(c.pending() =~= Seq::<u8>::empty());
        }
        c
    }

    /// Append one byte; on a terminator, hand back the completed line and
    /// reset. An unterminated line wraps at the ring size and starts over.
    #[verifier::loop_isolation(false)]
    pub fn push(&mut self, b: u8) -> (r: Option<Vec<u8>>)
        requires
            old(self).wf(),
        ensures
            final(self).wf(),
            final(self).pending() == push_pending(old(self).pending(), b),
            match r {
                Some(line) => push_line(old(self).pending(), b) == Some(line@),
                None => push_line(old(self).pending(), b) is None,
            },
    {
        if b == CR || b == LF {
            if self.pos == 0 {
                proof {
                    assert(push_pending(self.pending(), b) =~= self.pending());
                }
                None
            } else {
                let mut line: Vec<u8> = Vec::new();
                let ghost pending = self.pending();
                let n = self.pos;
                let mut i: usize = 0;
                while i < n
                    invariant
                        i <= n,
                        line@ =~= pending.take(i as int),
                    decreases n - i,
                {
                    assert(pending[i as int] == self.buffer@[i as int]);
                    line.push(self.buffer[i]);
                    proof {
                        assert(line@ =~= pending.take(i + 1));
                    }
                    i = i + 1;
                }
                self.pos = 0;
                proof {
                    assert(line@ =~= pending);
                    assert(self.pending() =~= Seq::<u8>::empty());
                }
                Some(line)
            }
        } else {
            let ghost pending = self.pending();
            self.buffer[self.pos] = b;
            self.pos = if self.pos + 1 == BUFFER_SIZE {
                0
            } else {
                self.pos + 1
            };
            proof {
                if self.pos == 0 {
                    assert(self.pending() =~= Seq::<u8>::empty());
                } else {
                    assert(self.pending() =~= pending.push(b));
                }
            }
            None
        }
    }

    /// Feed one byte; on a completed line, apply the grammar to the shared
    /// parameter block and hand back the request it emitted, if any.
    pub fn feed(&mut self, byte: u8, control: &mut Control) -> (r: Option<Requests>)
        requires
            old(self).wf(),
        ensures
            final(self).wf(),
            final(self).pending() == push_pending(old(self).pending(), byte),
            match push_line(old(self).pending(), byte) {
                Some(line) => ({
                    let (c2, req) = spec_apply_line(line, *old(control));
                    *final(control) == c2 && r == req
                }),
                None => *final(control) == *old(control) && r is None,
            },
    {
        let line = self.push(byte);
        match line {
            None => None,
            Some(word) => {
                let w = word.as_slice();
                let kw_tmon: [u8; 4] = [116, 109, 111, 110];
                let kw_tmoff: [u8; 5] = [116, 109, 111, 102, 102];
                let kw_pk: [u8; 3] = [112, 107, 61];
                let kw_ik: [u8; 3] = [105, 107, 61];
                let kw_dk: [u8; 3] = [100, 107, 61];
                let kw_pipk: [u8; 5] = [112, 105, 112, 107, 61];
                let kw_rpk: [u8; 4] = [114, 112, 107, 61];
                let kw_ypk: [u8; 4] = [121, 112, 107, 61];
                let kw_tthurst: [u8; 8] = [116, 116, 104, 117, 114, 115, 116, 61];
                let kw_pt: [u8; 3] = [112, 116, 61];
                let kw_status: [u8; 6] = [115, 116, 97, 116, 117, 115];
                let kw_boot: [u8; 4] = [98, 111, 111, 116];
                let kw_reset: [u8; 5] = [114, 101, 115, 101, 116];
                if slice_eq(w, kw_tmon.as_slice()) {
                    control.telemetry = true;
                    None
                } else if slice_eq(w, kw_tmoff.as_slice()) {
                    control.telemetry = false;
                    None
                } else if starts_with(w, kw_pk.as_slice()) {
                    if let Some(v) = parse_i32_from(w, 3) {
                        control.pk = v;
                    }
                    None
                } else if starts_with(w, kw_ik.as_slice()) {
                    if let Some(v) = parse_i32_from(w, 3) {
                        control.ik = v;
                    }
                    None
                } else if starts_with(w, kw_dk.as_slice()) {
                    if let Some(v) = parse_i32_from(w, 3) {
                        control.dk = v;
                    }
                    None
                } else if starts_with(w, kw_pipk.as_slice()) {
                    if let Some(v) = parse_i32_from(w, 5) {
                        control.pitch_pk = v;
                    }
                    None
                } else if starts_with(w, kw_rpk.as_slice()) {
                    if let Some(v) = parse_i32_from(w, 4) {
                        control.roll_pk = v;
                    }
                    None
                } else if starts_with(w, kw_ypk.as_slice()) {
                    if let Some(v) = parse_i32_from(w, 4) {
                        control.yaw_pk = v;
                    }
                    None
                } else if starts_with(w, kw_tthurst.as_slice()) {
                    if let Some(v) = parse_i32_from(w, 8) {
                        control.thrust = v;
                    }
                    None
                } else if starts_with(w, kw_pt.as_slice()) {
                    if let Some(v) = parse_i32_from(w, 3) {
                        control.target_degrees.pitch = v;
                    }
                    None
                } else if slice_eq(w, kw_status.as_slice()) {
                    Some(Requests::Status)
                } else if slice_eq(w, kw_boot.as_slice()) {
                    Some(Requests::Boot)
                } else if slice_eq(w, kw_reset.as_slice()) {
                    Some(Requests::Reset)
                } else {
                    None
                }
            },
        }
    }
}

} // verus!
