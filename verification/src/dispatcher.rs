use vstd::prelude::*;
use crate::batch::Message;
use crate::errors::{AwaitError, PublishError};

verus! {

/// The reported fate of one published message: exactly one of a transport
/// confirmation carrying the assigned identifier, or an application-level
/// rejection.
#[derive(Debug)]
pub enum PublishOutcome {
    Confirmed(String),
    Rejected(PublishError),
}

/// What awaiting one publish's awaitable produced: either it resolved — to a
/// confirmation or a rejection, both recorded — or the await itself failed,
/// which is fatal for the whole dispatch run.
#[derive(Debug)]
pub enum AwaitResult {
    Resolved(PublishOutcome),
    Unresolved(AwaitError),
}

/// Whether every awaitable in the run resolved (to either fate).
pub open spec fn all_resolved(rs: Seq<AwaitResult>) -> bool {
    forall|i: int| 0 <= i < rs.len() ==> rs[i] is Resolved
}

/// The per-message report of a fully resolved run, in submission order.
pub open spec fn outcomes_of(rs: Seq<AwaitResult>) -> Seq<PublishOutcome> {
    rs.map_values(|r: AwaitResult| r->Resolved_0)
}

/// How many outcomes of a report are confirmations.
pub open spec fn confirmed_count(os: Seq<PublishOutcome>) -> int
    decreases os.len(),
{
    if os.len() == 0 {
        0
    } else {
        confirmed_count(os.drop_last()) + if os.last() is Confirmed {
            1int
        } else {
            0int
        }
    }
}

/// Join the awaited results of a dispatch run into its report.
///
/// If every awaitable resolved, the report lists one outcome per submitted
/// message, in submission order — a message's rejection touches no sibling.
/// If some await itself failed, the run is abandoned with the error of the
/// first such failure, every await before it having resolved.
pub fn collect_outcomes(results: Vec<AwaitResult>) -> (r: Result<Vec<PublishOutcome>, AwaitError>)
    ensures
        r is Ok <==> all_resolved(results@),
        (r matches Ok(os) ==> os@.len() == results@.len() && os@ == outcomes_of(results@)),
        (r matches Err(e) ==> exists|i: int|
            {
                &&& 0 <= i < results@.len()
                &&& (#[trigger] results@[i]) matches AwaitResult::Unresolved(e2)
                &&& e2 == e
                &&& all_resolved(results@.take(i))
            }),
{
    let mut rest = results;
    let mut out: Vec<PublishOutcome> = Vec::new();
    loop
        invariant
            out@.len() + rest@.len() == results@.len(),
            rest@ == results@.skip(out@.len() as int),
            all_resolved(results@.take(out@.len() as int)),
            out@ == outcomes_of(results@.take(out@.len() as int)),
        decreases rest@.len(),
    {
        if rest.len() == 0 {
            proof {
                assert(results@.take(results@.len() as int) =~= results@);
            }
            return Ok(out);
        }
        let ghost done = out@.len() as int;
        let head = rest.remove(0);
        proof {
            assert(head == results@[done]);
            assert(rest@ =~= results@.skip(done + 1));
        }
        match head {
            AwaitResult::Resolved(o) => {
                out.push(o);
                proof {
                    assert(results@.take(done + 1).drop_last() =~= results@.take(done));
                    assert(out@ =~= outcomes_of(results@.take(done + 1))) by {
                        assert(outcomes_of(results@.take(done + 1)) =~= outcomes_of(
                            results@.take(done),
                        ).push(o));
                    }
                }
            },
            AwaitResult::Unresolved(e) => {
                return Err(e);
            },
        }
    }
}

/// The ASCII digit for one decimal place.
pub open spec fn ascii_digit(d: int) -> u8 {
    (48 + d) as u8
}

/// The decimal digits of `n` as ASCII bytes, most significant first.
pub open spec fn dec_bytes(n: nat) -> Seq<u8>
    decreases n,
{
    if n < 10 {
        seq![ascii_digit(n as int)]
    } else {
        dec_bytes(n / 10).push(ascii_digit((n % 10) as int))
    }
}

/// The deterministic payload for the message at one submission index:
/// the bytes of `some-` followed by the index in decimal.
pub open spec fn payload_spec(i: nat) -> Seq<u8> {
    seq![115u8, 111u8, 109u8, 101u8, 45u8] + dec_bytes(i)
}

/// The decimal digits of `n`, as `dec_bytes` spells them.
pub fn decimal_bytes(n: u64) -> (r: Vec<u8>)
    ensures
        r@ == dec_bytes(n as nat),
{
    let mut rev: Vec<u8> = Vec::new();
    let mut m: u64 = n;
    rev.push(48 + (m % 10) as u8);
    proof {
        assert(rev@.reverse() =~= seq![ascii_digit((n % 10) as int)]);
    }
    m = m / 10;
    while m > 0
        invariant
            m > 0 ==> dec_bytes(n as nat) == dec_bytes(m as nat) + rev@.reverse(),
            m == 0 ==> dec_bytes(n as nat) == rev@.reverse(),
            rev@.len() >= 1,
        decreases m,
    {
        let ghost prev = rev@;
        let ghost mi = m as nat;
        rev.push(48 + (m % 10) as u8);
        proof {
            assert(rev@.reverse() =~= seq![ascii_digit((mi % 10) as int)] + prev.reverse());
        }
        m = m / 10;
        proof {
            if m > 0 {
                assert(dec_bytes(mi) == dec_bytes(mi / 10).push(ascii_digit((mi % 10) as int)));
                assert(dec_bytes(mi / 10) + rev@.reverse() =~= (dec_bytes(mi / 10).push(
                    ascii_digit((mi % 10) as int),
                )) + prev.reverse());
            } else {
                assert(dec_bytes(mi) =~= seq![ascii_digit((mi % 10) as int)]);
                assert(dec_bytes(mi) + prev.reverse() =~= rev@.reverse());
            }
        }
    }
    let mut out: Vec<u8> = Vec::new();
    let mut j: usize = rev.len();
    while j > 0
        invariant
            j <= rev@.len(),
            out@ == rev@.skip(j as int).reverse(),
        decreases j,
    {
        j -= 1;
        out.push(rev[j]);
        proof {
            assert(out@ =~= rev@.skip(j as int).reverse());
        }
    }
    proof {
        assert(rev@.skip(0) =~= rev@);
    }
    out
}

/// The payload of the message at submission index `i`.
pub fn payload_for_index(i: u64) -> (p: Vec<u8>)
    ensures
        p@ == payload_spec(i as nat),
{
    let mut p: Vec<u8> = Vec::new();
    p.push(115);
    p.push(111);
    p.push(109);
    p.push(101);
    p.push(45);
    let digits = decimal_bytes(i);
    let mut k: usize = 0;
    while k < digits.len()
        invariant
            k <= digits@.len(),
            digits@ == dec_bytes(i as nat),
            p@ == seq![115u8, 111u8, 109u8, 101u8, 45u8] + digits@.take(k as int),
        decreases digits@.len() - k,
    {
        p.push(digits[k]);
        proof {
            assert(p@ =~= seq![115u8, 111u8, 109u8, 101u8, 45u8] + digits@.take(k + 1 as int));
        }
        k += 1;
    }
    proof {
        assert(digits@.take(digits@.len() as int) =~= digits@);
        assert(p@ =~= payload_spec(i as nat));
    }
    p
}

/// The message the dispatcher submits at index `i`: the deterministic
/// payload, with no identifier until the transport confirms one.
pub fn make_message(i: u64) -> (m: Message)
    ensures
        m.payload@ == payload_spec(i as nat),
        m.id is None,
{
    Message { payload: payload_for_index(i), id: None }
}

/// Count the confirmations in a report.
pub fn count_confirmed(os: &Vec<PublishOutcome>) -> (n: usize)
    ensures
        n as int == confirmed_count(os@),
{
    let mut n: usize = 0;
    let mut i: usize = 0;
    while i < os.len()
        invariant
            i <= os@.len(),
            n <= i,
            n as int == confirmed_count(os@.take(i as int)),
        decreases os@.len() - i,
    {
        proof {
            assert(os@.take(i + 1 as int).drop_last() =~= os@.take(i as int));
        }
        if matches!(&os[i], PublishOutcome::Confirmed(_)) {
            n += 1;
        }
        i += 1;
    }
    proof {
        assert(os@.take(os@.len() as int) =~= os@);
    }
    n
}

} // verus!
