//! The consumer side: what to do on each poll of the queue, and the report
//! line `addr: A.B.C.D, port: P` for a record.
use vstd::prelude::*;
use crate::queue::{pop_step, HandoffQueue};
use crate::record::SourceAddr;

verus! {

/// What the consumer does after one poll of the queue.
#[derive(Debug)]
pub enum ConsumerAction {
    /// Log this report line (ASCII), then poll again at once.
    Report(Vec<u8>),
    /// Nothing was queued: wait briefly before polling again.
    Wait,
    /// Shutdown was requested: leave the loop, records still queued or not.
    Stop,
}

/// The ASCII decimal digits of `n`, without leading zeros.
pub open spec fn decimal(n: nat) -> Seq<u8>
    decreases n,
{
    if n < 10 {
        seq![(48 + n) as u8]
    } else {
        decimal(n / 10).push((48 + n % 10) as u8)
    }
}

/// Octet `i` of an IPv4 address, counting from the most significant.
pub open spec fn octet(addr: u32, i: nat) -> nat {
    if i == 0 {
        (addr / 16777216) as nat
    } else if i == 1 {
        (addr / 65536 % 256) as nat
    } else if i == 2 {
        (addr / 256 % 256) as nat
    } else {
        (addr % 256) as nat
    }
}

/// The dotted-quad form of an IPv4 address.
pub open spec fn dotted_quad(addr: u32) -> Seq<u8> {
    decimal(octet(addr, 0)) + seq![46u8] + decimal(octet(addr, 1)) + seq![46u8] + decimal(
        octet(addr, 2),
    ) + seq![46u8] + decimal(octet(addr, 3))
}

/// The text `addr: `.
pub open spec fn addr_label() -> Seq<u8> {
    seq![97u8, 100u8, 100u8, 114u8, 58u8, 32u8]
}

/// The text `, port: `.
pub open spec fn port_label() -> Seq<u8> {
    seq![44u8, 32u8, 112u8, 111u8, 114u8, 116u8, 58u8, 32u8]
}

/// The report line of a record: `addr: A.B.C.D, port: P`.
pub open spec fn report_text(r: SourceAddr) -> Seq<u8> {
    addr_label() + dotted_quad(r.addr) + port_label() + decimal(r.port as nat)
}

/// Appends the bytes of `s` to `out`.
fn append_bytes(out: &mut Vec<u8>, s: &[u8])
    ensures
        final(out)@ == old(out)@ + s@,
{
    let mut i: usize = 0;
    while i < s.len()
        invariant
            i <= s@.len(),
            out@ == old(out)@ + s@.subrange(0, i as int),
        decreases s@.len() - i,
    {
        out.push(s[i]);
        i = i + 1;
        assert(s@.subrange(0, i as int) == s@.subrange(0, i - 1).push(s@[i - 1]));
    }
    assert(s@.subrange(0, s@.len() as int) == s@);
}

/// Appends the decimal digits of `n` to `out`.
pub fn push_decimal(out: &mut Vec<u8>, n: u32)
    ensures
        final(out)@ == old(out)@ + decimal(n as nat),
    decreases n,
{
    if n >= 10 {
        push_decimal(out, n / 10);
    }
    out.push(48u8 + (n % 10) as u8);
    proof {
        if n >= 10 {
            assert(old(out)@ + decimal(n as nat) == old(out)@ + decimal((n / 10) as nat) + seq![
                (48 + n % 10) as u8,
            ]);
        }
    }
}

/// The dotted-quad form of an IPv4 address, as ASCII bytes.
pub fn format_addr(addr: u32) -> (r: Vec<u8>)
    ensures
        r@ == dotted_quad(addr),
{
    let mut out: Vec<u8> = Vec::new();
    push_decimal(&mut out, addr / 16777216);
    out.push(46u8);
    push_decimal(&mut out, addr / 65536 % 256);
    out.push(46u8);
    push_decimal(&mut out, addr / 256 % 256);
    out.push(46u8);
    push_decimal(&mut out, addr % 256);
    assert(out@ == dotted_quad(addr));
    out
}

/// The report line of a record, as ASCII bytes.
pub fn report_line(record: SourceAddr) -> (r: Vec<u8>)
    ensures
        r@ == report_text(record),
{
    let mut out: Vec<u8> = Vec::new();
    append_bytes(&mut out, &[97u8, 100u8, 100u8, 114u8, 58u8, 32u8]);
    let quad = format_addr(record.addr);
    append_bytes(&mut out, quad.as_slice());
    append_bytes(&mut out, &[44u8, 32u8, 112u8, 111u8, 114u8, 116u8, 58u8, 32u8]);
    push_decimal(&mut out, record.port as u32);
    assert(out@ == report_text(record));
    out
}

/// The action for the result of one pop: report a record, or wait when
/// there was none.
pub fn next_action(polled: Option<SourceAddr>) -> (r: ConsumerAction)
    ensures
        match polled {
            Some(x) => (r matches ConsumerAction::Report(line) && line@ == report_text(x)),
            None => r is Wait,
        },
{
    match polled {
        Some(record) => ConsumerAction::Report(report_line(record)),
        None => ConsumerAction::Wait,
    }
}

/// One iteration of the consumer loop: stop without touching the queue when
/// shutdown is requested; else pop the oldest record and act on it.
pub fn poll(queue: &mut HandoffQueue, shutdown: bool) -> (r: ConsumerAction)
    requires
        old(queue).wf(),
    ensures
        final(queue).wf(),
        final(queue).cap() == old(queue).cap(),
        shutdown ==> r is Stop && final(queue)@ == old(queue)@,
        !shutdown ==> match pop_step(old(queue)@) {
            Some((x, rest)) => (r matches ConsumerAction::Report(line) && line@ == report_text(x))
                && final(queue)@ == rest,
            None => r is Wait && final(queue)@ == old(queue)@,
        },
{
    if shutdown {
        return ConsumerAction::Stop;
    }
    let polled = queue.pop();
    next_action(polled)
}

} // verus!
