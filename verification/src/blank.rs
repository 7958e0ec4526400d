//! The blank-check retry engine: verification of an address range is split
//! into fixed-size, alignment-constrained windows, and each window is
//! retried against the flaky check primitive a bounded number of times.
//! What the engine does is pinned down by a trace predicate over the
//! driver's call log: exactly which windows are attempted, in which order,
//! and where a run stops.

use vstd::prelude::*;

use crate::driver::{DriverCall, FlashDriver, BLANK_CHECK_ATTEMPTS, BLANK_CHECK_CHUNK};
use crate::status::Error;

verus! {

/// The window size of the next blank-check attempt when `size` bytes are
/// still unverified: a full window, or what remains of the range.
pub open spec fn chunk_of(size: int) -> int {
    if size < BLANK_CHECK_CHUNK {
        size
    } else {
        BLANK_CHECK_CHUNK as int
    }
}

/// `k` failed blank-check attempts over the window at `addr` of `len`
/// bytes.
pub open spec fn fails_seq(addr: u32, len: u32, k: int) -> Seq<DriverCall> {
    Seq::new(k as nat, |i: int| DriverCall::BlankCheck { address: addr, length: len, ok: false })
}

/// One passed blank-check attempt over the window at `addr` of `len`
/// bytes.
pub open spec fn ok_check(addr: u32, len: u32) -> DriverCall {
    DriverCall::BlankCheck { address: addr, length: len, ok: true }
}

/// The calls a blank-check run leaves in the log, read from the front:
/// `size` bytes at `addr` are still unverified, `attempt` tries have
/// already failed on the current window, and the run as a whole ends with
/// outcome `ok`. Each window is retried until its first pass; once a
/// window has failed [`BLANK_CHECK_ATTEMPTS`] times the run stops at once,
/// attempting no later window.
pub open spec fn blank_trace_from(
    addr: int,
    size: int,
    attempt: int,
    t: Seq<DriverCall>,
    ok: bool,
) -> bool
    decreases t.len(),
{
    if size <= 0 {
        t.len() == 0 && ok
    } else {
        let chunk = chunk_of(size);
        t.len() > 0 && match t[0] {
            DriverCall::BlankCheck { address, length, ok: passed } => {
                &&& address == addr
                &&& length == chunk
                &&& if passed {
                    blank_trace_from(addr + chunk, size - chunk, 0, t.drop_first(), ok)
                } else if attempt + 1 < BLANK_CHECK_ATTEMPTS {
                    blank_trace_from(addr, size, attempt + 1, t.drop_first(), ok)
                } else {
                    t.len() == 1 && !ok
                }
            },
            _ => false,
        }
    }
}

/// The calls a whole blank-check run over `size` bytes at `addr` leaves in
/// the log, and its outcome.
pub open spec fn blank_trace(addr: int, size: int, t: Seq<DriverCall>, ok: bool) -> bool {
    blank_trace_from(addr, size, 0, t, ok)
}

/// A run that passes its current window after `k` failures continues like
/// a fresh run on the rest of the range.
proof fn lemma_success_run(addr: u32, c: u32, attempt: int, k: int)
    requires
        0 < c <= BLANK_CHECK_CHUNK,
        0 <= attempt,
        0 <= k,
        attempt + k < BLANK_CHECK_ATTEMPTS,
    ensures
        blank_trace_from(
            addr as int,
            c as int,
            attempt,
            fails_seq(addr, c, k).push(ok_check(addr, c)),
            true,
        ),
    decreases k,
{
    let t = fails_seq(addr, c, k).push(ok_check(addr, c));
    assert(chunk_of(c as int) == c as int);
    if k == 0 {
        assert(t.len() == 1);
        assert(t[0] == ok_check(addr, c));
        assert(t.drop_first() =~= Seq::<DriverCall>::empty());
        assert(blank_trace_from(addr as int + c as int, 0, 0, t.drop_first(), true));
    } else {
        lemma_success_run(addr, c, attempt + 1, k - 1);
        assert(t[0] == DriverCall::BlankCheck { address: addr, length: c, ok: false });
        assert(t.drop_first() =~= fails_seq(addr, c, k - 1).push(ok_check(addr, c)));
        assert(blank_trace_from(addr as int, c as int, attempt + 1, t.drop_first(), true));
    }
}

/// Appending one call to a concatenation appends it to the second part.
proof fn lemma_add_push<T>(a: Seq<T>, b: Seq<T>, x: T)
    ensures
        (a + b).push(x) =~= a + b.push(x),
{
}

/// A run whose current window keeps failing stops after the bounded number
/// of attempts, with the run's overall outcome a failure.
proof fn lemma_fail_run(addr: u32, c: u32, size: int, attempt: int)
    requires
        0 < size,
        c == chunk_of(size),
        0 <= attempt < BLANK_CHECK_ATTEMPTS,
    ensures
        blank_trace_from(
            addr as int,
            size,
            attempt,
            fails_seq(addr, c, BLANK_CHECK_ATTEMPTS - attempt),
            false,
        ),
    decreases BLANK_CHECK_ATTEMPTS - attempt,
{
    let t = fails_seq(addr, c, BLANK_CHECK_ATTEMPTS - attempt);
    assert(t[0] == DriverCall::BlankCheck { address: addr, length: c, ok: false });
    if attempt + 1 < BLANK_CHECK_ATTEMPTS {
        lemma_fail_run(addr, c, size, attempt + 1);
        assert(t.drop_first() =~= fails_seq(addr, c, BLANK_CHECK_ATTEMPTS - attempt - 1));
    } else {
        assert(t.len() == 1);
    }
}

/// A successful run over the first `done` bytes, followed by a run over
/// the rest of the range, is one run over the whole range.
proof fn lemma_trace_append(
    a: int,
    done: int,
    s: int,
    attempt: int,
    t1: Seq<DriverCall>,
    t2: Seq<DriverCall>,
    ok: bool,
)
    requires
        0 <= done <= s,
        done % (BLANK_CHECK_CHUNK as int) == 0,
        0 <= attempt < BLANK_CHECK_ATTEMPTS,
        done == 0 ==> attempt == 0,
        blank_trace_from(a, done, attempt, t1, true),
        blank_trace_from(a + done, s - done, 0, t2, ok),
    ensures
        blank_trace_from(a, s, attempt, t1 + t2, ok),
    decreases t1.len(),
{
    if done == 0 {
        assert(t1.len() == 0);
        assert(t1 + t2 =~= t2);
    } else {
        assert(done >= BLANK_CHECK_CHUNK);
        assert(chunk_of(done) == BLANK_CHECK_CHUNK as int);
        assert(chunk_of(s) == BLANK_CHECK_CHUNK as int);
        let t = t1 + t2;
        assert(t[0] == t1[0]);
        match t1[0] {
            DriverCall::BlankCheck { address, length, ok: passed } => {
                assert((t1 + t2).drop_first() =~= t1.drop_first() + t2);
                if passed {
                    lemma_trace_append(
                        a + BLANK_CHECK_CHUNK as int,
                        done - BLANK_CHECK_CHUNK as int,
                        s - BLANK_CHECK_CHUNK as int,
                        0,
                        t1.drop_first(),
                        t2,
                        ok,
                    );
                } else {
                    assert(attempt + 1 < BLANK_CHECK_ATTEMPTS);
                    lemma_trace_append(a, done, s, attempt + 1, t1.drop_first(), t2, ok);
                }
            },
            _ => {
                assert(false);
            },
        }
    }
}

/// The blank-check attempts of `t` that passed, in order.
pub open spec fn passed_checks(t: Seq<DriverCall>) -> Seq<DriverCall>
    decreases t.len(),
{
    if t.len() == 0 {
        Seq::empty()
    } else {
        let rest = passed_checks(t.drop_first());
        match t[0] {
            DriverCall::BlankCheck { address, length, ok } => {
                if ok {
                    seq![t[0]] + rest
                } else {
                    rest
                }
            },
            _ => rest,
        }
    }
}

/// How many windows a range of `size` bytes splits into.
pub open spec fn window_count(size: int) -> int {
    (size + BLANK_CHECK_CHUNK - 1) / (BLANK_CHECK_CHUNK as int)
}

/// The passed attempts a successful run over `size` bytes at `addr` must
/// show: one per window, at consecutive window starts, each a full window
/// except possibly the last.
pub open spec fn expected_windows(addr: int, size: int) -> Seq<DriverCall> {
    Seq::new(
        window_count(size) as nat,
        |i: int|
            DriverCall::BlankCheck {
                address: (addr + i * BLANK_CHECK_CHUNK) as u32,
                length: chunk_of(size - i * BLANK_CHECK_CHUNK) as u32,
                ok: true,
            },
    )
}

/// A successful run passes each window of the range exactly once, in
/// ascending address order, whatever retries it took: the passed attempts
/// of its trace are exactly the range's windows.
pub proof fn lemma_blank_trace_windows(addr: int, size: int, attempt: int, t: Seq<DriverCall>)
    requires
        0 <= size,
        blank_trace_from(addr, size, attempt, t, true),
    ensures
        passed_checks(t) =~= expected_windows(addr, size),
    decreases t.len(),
{
    if size <= 0 {
        assert(window_count(size) == 0);
        assert(expected_windows(addr, size) =~= Seq::<DriverCall>::empty());
    } else {
        let chunk = chunk_of(size);
        match t[0] {
            DriverCall::BlankCheck { address, length, ok: passed0 } => {
                if passed0 {
                    lemma_blank_trace_windows(addr + chunk, size - chunk, 0, t.drop_first());
                    assert(window_count(size) == 1 + window_count(size - chunk));
                    assert forall|i: int| 0 <= i < window_count(size) implies expected_windows(
                        addr,
                        size,
                    )[i] == (seq![t[0]] + expected_windows(addr + chunk, size - chunk))[i] by {
                        if i > 0 {
                            assert(expected_windows(addr + chunk, size - chunk)[i - 1]
                                == DriverCall::BlankCheck {
                                address: (addr + chunk + (i - 1) * BLANK_CHECK_CHUNK) as u32,
                                length: chunk_of(size - chunk - (i - 1) * BLANK_CHECK_CHUNK)
                                    as u32,
                                ok: true,
                            });
                            assert(addr + chunk + (i - 1) * BLANK_CHECK_CHUNK == addr + i
                                * BLANK_CHECK_CHUNK);
                        }
                    }
                    assert(expected_windows(addr, size) =~= seq![t[0]] + expected_windows(
                        addr + chunk,
                        size - chunk,
                    ));
                } else {
                    lemma_blank_trace_windows(addr, size, attempt + 1, t.drop_first());
                }
            },
            _ => {
                assert(false);
            },
        }
    }
}

/// Over a range that is an exact multiple of the window size, a successful
/// run passes exactly `size / BLANK_CHECK_CHUNK` windows, each a full
/// window, at consecutive window starts: together they consume the whole
/// range, from `addr` to `addr + size`.
pub proof fn lemma_blank_trace_full_windows(addr: int, size: int, t: Seq<DriverCall>)
    requires
        0 <= size,
        size % (BLANK_CHECK_CHUNK as int) == 0,
        blank_trace(addr, size, t, true),
    ensures
        passed_checks(t).len() == size / (BLANK_CHECK_CHUNK as int),
        forall|i: int|
            0 <= i < size / (BLANK_CHECK_CHUNK as int) ==> passed_checks(t)[i]
                == (DriverCall::BlankCheck {
                address: (addr + i * BLANK_CHECK_CHUNK) as u32,
                length: BLANK_CHECK_CHUNK,
                ok: true,
            }),
{
    lemma_blank_trace_windows(addr, size, 0, t);
    assert(window_count(size) == size / (BLANK_CHECK_CHUNK as int));
    assert forall|i: int| 0 <= i < size / (BLANK_CHECK_CHUNK as int) implies passed_checks(t)[i]
        == DriverCall::BlankCheck {
        address: (addr + i * BLANK_CHECK_CHUNK) as u32,
        length: BLANK_CHECK_CHUNK,
        ok: true,
    } by {
        assert((i + 1) * BLANK_CHECK_CHUNK <= size) by (nonlinear_arith)
            requires
                0 <= i < size / (BLANK_CHECK_CHUNK as int),
                size % (BLANK_CHECK_CHUNK as int) == 0,
                size >= 0,
        ;
        assert(chunk_of(size - i * BLANK_CHECK_CHUNK) == BLANK_CHECK_CHUNK as int);
    }
}

/// Which step a failing run takes at its current window: either the window
/// exhausts its remaining attempts and the trace is exactly those
/// failures, or the window passes after `k` more failures and the rest of
/// the trace is a failing run over the rest of the range. Returns `k`, or
/// a negative number in the exhausted case.
proof fn lemma_chunk_step(addr: int, size: int, attempt: int, t: Seq<DriverCall>) -> (k: int)
    requires
        0 < size,
        0 <= attempt < BLANK_CHECK_ATTEMPTS,
        blank_trace_from(addr, size, attempt, t, false),
    ensures
        k < 0 ==> t =~= fails_seq(
            addr as u32,
            chunk_of(size) as u32,
            BLANK_CHECK_ATTEMPTS - attempt,
        ),
        k >= 0 ==> {
            &&& k < BLANK_CHECK_ATTEMPTS - attempt
            &&& k + 1 <= t.len()
            &&& t.take(k + 1) =~= fails_seq(addr as u32, chunk_of(size) as u32, k).push(
                ok_check(addr as u32, chunk_of(size) as u32),
            )
            &&& blank_trace_from(addr + chunk_of(size), size - chunk_of(size), 0, t.skip(k + 1), false)
        },
    decreases BLANK_CHECK_ATTEMPTS - attempt,
{
    let chunk = chunk_of(size);
    match t[0] {
        DriverCall::BlankCheck { address, length, ok: passed0 } => {
            if passed0 {
                assert(t.take(1) =~= fails_seq(addr as u32, chunk as u32, 0).push(
                    ok_check(addr as u32, chunk as u32),
                ));
                assert(t.skip(1) =~= t.drop_first());
                0
            } else if attempt + 1 < BLANK_CHECK_ATTEMPTS {
                let k_inner = lemma_chunk_step(addr, size, attempt + 1, t.drop_first());
                assert forall|i: int| 1 <= i < t.len() implies t[i] == t.drop_first()[i - 1] by {}
                if k_inner < 0 {
                    assert(t =~= fails_seq(
                        addr as u32,
                        chunk as u32,
                        BLANK_CHECK_ATTEMPTS - attempt,
                    ));
                    -1
                } else {
                    let run = fails_seq(addr as u32, chunk as u32, k_inner + 1).push(
                        ok_check(addr as u32, chunk as u32),
                    );
                    assert forall|i: int| 0 <= i < k_inner + 2 implies t.take(k_inner + 2)[i]
                        == run[i] by {
                        if i >= 1 {
                            assert(t.drop_first().take(k_inner + 1)[i - 1] == t.drop_first()[i
                                - 1]);
                        }
                    }
                    assert(t.take(k_inner + 2) =~= run);
                    assert(t.skip(k_inner + 2) =~= t.drop_first().skip(k_inner + 1));
                    k_inner + 1
                }
            } else {
                assert(t =~= fails_seq(addr as u32, chunk as u32, 1));
                -1
            }
        },
        _ => {
            assert(false);
            -1
        },
    }
}

/// A failing run stops where it fails: its trace is a successful run over
/// the longest prefix of whole windows that passed, followed by the full
/// bounded count of failed attempts on the first bad window — and nothing
/// after those. No later window is attempted. Returns how many bytes
/// passed before the bad window.
pub proof fn lemma_blank_trace_failure_stops(addr: int, size: int, t: Seq<DriverCall>) -> (done:
    int)
    requires
        0 <= size,
        blank_trace(addr, size, t, false),
    ensures
        0 <= done < size,
        done % (BLANK_CHECK_CHUNK as int) == 0,
        t.len() >= BLANK_CHECK_ATTEMPTS,
        blank_trace(addr, done, t.take(t.len() - BLANK_CHECK_ATTEMPTS as int), true),
        t.skip(t.len() - BLANK_CHECK_ATTEMPTS as int) =~= fails_seq(
            (addr + done) as u32,
            chunk_of(size - done) as u32,
            BLANK_CHECK_ATTEMPTS as int,
        ),
    decreases t.len(),
{
    assert(size > 0);
    let chunk = chunk_of(size);
    let k = lemma_chunk_step(addr, size, 0, t);
    if k < 0 {
        assert(t.take(t.len() - BLANK_CHECK_ATTEMPTS as int) =~= Seq::<DriverCall>::empty());
        0
    } else {
        let run = t.take(k + 1);
        let rest = t.skip(k + 1);
        assert(size - chunk > 0);
        let done_rest = lemma_blank_trace_failure_stops(addr + chunk, size - chunk, rest);
        let done = chunk + done_rest;
        lemma_success_run(addr as u32, chunk as u32, 0, k);
        lemma_trace_append(
            addr,
            chunk,
            done,
            0,
            run,
            rest.take(rest.len() - BLANK_CHECK_ATTEMPTS as int),
            true,
        );
        assert(run + rest.take(rest.len() - BLANK_CHECK_ATTEMPTS as int) =~= t.take(
            t.len() - BLANK_CHECK_ATTEMPTS as int,
        ));
        assert(t.skip(t.len() - BLANK_CHECK_ATTEMPTS as int) =~= rest.skip(
            rest.len() - BLANK_CHECK_ATTEMPTS as int,
        ));
        done
    }
}

/// Verify that a range of `size` bytes starting at `address` reads as
/// erased. The start must lie on a blank-check window boundary; a
/// misaligned start fails at once with an invalid-address error, before
/// any check is attempted. Otherwise the range is walked window by window,
/// each window retried up to the bounded attempt count, and the first
/// window to exhaust its attempts fails the whole operation immediately.
/// The call log of the driver is extended by exactly the trace
/// [`blank_trace`] describes, and by nothing else.
pub fn verify_blank<D: FlashDriver>(driver: &mut D, address: u32, size: u32) -> (r: Result<
    (),
    Error,
>)
    requires
        address + size <= 0x1_0000_0000,
    ensures
        r == Err::<(), Error>(Error::InvalidAddress) <==> address % BLANK_CHECK_CHUNK != 0,
        address % BLANK_CHECK_CHUNK != 0 ==> final(driver).calls() == old(driver).calls(),
        address % BLANK_CHECK_CHUNK == 0 ==> {
            &&& final(driver).calls().len() >= old(driver).calls().len()
            &&& final(driver).calls().take(old(driver).calls().len() as int) == old(
                driver,
            ).calls()
            &&& blank_trace(
                address as int,
                size as int,
                final(driver).calls().skip(old(driver).calls().len() as int),
                r is Ok,
            )
        },
        r is Err ==> r == Err::<(), Error>(Error::InvalidAddress) || r == Err::<(), Error>(
            Error::Fail,
        ),
{
    if address % BLANK_CHECK_CHUNK != 0 {
        return Err(Error::InvalidAddress);
    }
    let ghost base: int = driver.calls().len() as int;
    let mut remaining: u32 = size;
    while remaining > 0
        invariant
            address % BLANK_CHECK_CHUNK == 0,
            address + size <= 0x1_0000_0000,
            remaining <= size,
            remaining != 0 ==> ((size - remaining) % (BLANK_CHECK_CHUNK as int) == 0),
            base == old(driver).calls().len(),
            driver.calls().len() >= base,
            driver.calls().take(base) == old(driver).calls(),
            blank_trace(
                address as int,
                (size - remaining) as int,
                driver.calls().skip(base),
                true,
            ),
        decreases remaining,
    {
        let done_bytes: u32 = size - remaining;
        let current: u32 = address + done_bytes;
        let chunk: u32 = if remaining < BLANK_CHECK_CHUNK {
            remaining
        } else {
            BLANK_CHECK_CHUNK
        };
        let ghost pre_chunk: Seq<DriverCall> = driver.calls().skip(base);
        let ghost inner_base: Seq<DriverCall> = driver.calls();
        let mut attempt: u32 = 0;
        let mut passed: bool = false;
        proof {
            assert(driver.calls() =~= inner_base + fails_seq(current, chunk, 0));
        }
        while attempt < BLANK_CHECK_ATTEMPTS
            invariant_except_break
                !passed,
                driver.calls() == inner_base + fails_seq(current, chunk, attempt as int),
            invariant
                attempt <= BLANK_CHECK_ATTEMPTS,
            ensures
                passed ==> attempt < BLANK_CHECK_ATTEMPTS && driver.calls() == inner_base
                    + fails_seq(current, chunk, attempt as int).push(ok_check(current, chunk)),
                !passed ==> attempt == BLANK_CHECK_ATTEMPTS && driver.calls() == inner_base
                    + fails_seq(current, chunk, BLANK_CHECK_ATTEMPTS as int),
            decreases BLANK_CHECK_ATTEMPTS - attempt,
        {
            let result = driver.blank_check(current, chunk);
            if result.is_ok() {
                passed = true;
                proof {
                    lemma_add_push(
                        inner_base,
                        fails_seq(current, chunk, attempt as int),
                        ok_check(current, chunk),
                    );
                    assert(driver.calls() =~= inner_base + fails_seq(
                        current,
                        chunk,
                        attempt as int,
                    ).push(ok_check(current, chunk)));
                }
                break;
            }
            proof {
                lemma_add_push(
                    inner_base,
                    fails_seq(current, chunk, attempt as int),
                    DriverCall::BlankCheck { address: current, length: chunk, ok: false },
                );
                assert(fails_seq(current, chunk, attempt as int).push(
                    DriverCall::BlankCheck { address: current, length: chunk, ok: false },
                ) =~= fails_seq(current, chunk, attempt as int + 1));
                assert(driver.calls() =~= inner_base + fails_seq(
                    current,
                    chunk,
                    attempt as int + 1,
                ));
            }
            attempt = attempt + 1;
        }
        if !passed {
            proof {
                lemma_fail_run(current, chunk, remaining as int, 0);
                lemma_trace_append(
                    address as int,
                    (size - remaining) as int,
                    size as int,
                    0,
                    pre_chunk,
                    fails_seq(current, chunk, BLANK_CHECK_ATTEMPTS as int),
                    false,
                );
                assert(driver.calls().skip(base) =~= pre_chunk + fails_seq(
                    current,
                    chunk,
                    BLANK_CHECK_ATTEMPTS as int,
                ));
                assert(driver.calls().take(base) =~= old(driver).calls());
            }
            return Err(Error::Fail);
        }
        proof {
            lemma_success_run(current, chunk, 0, attempt as int);
            lemma_trace_append(
                address as int,
                (size - remaining) as int,
                (size - remaining + chunk) as int,
                0,
                pre_chunk,
                fails_seq(current, chunk, attempt as int).push(ok_check(current, chunk)),
                true,
            );
            assert(driver.calls().skip(base) =~= pre_chunk + fails_seq(
                current,
                chunk,
                attempt as int,
            ).push(ok_check(current, chunk)));
            assert(driver.calls().take(base) =~= old(driver).calls());
        }
        remaining = remaining - chunk;
    }
    Ok(())
}

} // verus!
