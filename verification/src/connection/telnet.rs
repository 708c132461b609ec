use vstd::prelude::*;

verus! {

pub const TC_SE: u8 = 240;
pub const TC_NOP: u8 = 241;
pub const TC_DATA_MARK: u8 = 242;
pub const TC_BREAK: u8 = 243;
pub const TC_INTERRUPT_PROCESS: u8 = 244;
pub const TC_ABORT_OUTPUT: u8 = 245;
pub const TC_ARE_YOU_THERE: u8 = 246;
pub const TC_ERASE_CHARACTER: u8 = 247;
pub const TC_ERASE_LINE: u8 = 248;
pub const TC_GO_AHEAD: u8 = 249;
pub const TC_SB: u8 = 250;
pub const TC_WILL: u8 = 251;
pub const TC_WONT: u8 = 252;
pub const TC_DO: u8 = 253;
pub const TC_DONT: u8 = 254;
pub const TC_IAC: u8 = 255;

pub const TO_ECHO: u8 = 1;
pub const TO_SUPPRESS_GO_AHEAD: u8 = 3;
pub const TO_SUPRESS_GO_AHEAD: u8 = TO_SUPPRESS_GO_AHEAD;
pub const TO_TERMINAL_TYPE: u8 = 24;
pub const TO_IS: u8 = 0;
pub const TO_SEND: u8 = 1;
pub const TO_NAWS: u8 = 31;

/// Where the first `IAC SE` at or after `k` ends (the index after it), if
/// the input holds one.
pub open spec fn subneg_end(input: Seq<u8>, k: int) -> Option<int>
    decreases input.len() - k,
{
    if k < 0 || k + 1 >= input.len() {
        None
    } else if input[k] == TC_IAC && input[k + 1] == TC_SE {
        Some(k + 2)
    } else {
        subneg_end(input, k + 1)
    }
}

/// A subnegotiation end lies past where the search started.
pub proof fn lemma_subneg_end_after(input: Seq<u8>, k: int)
    ensures
        subneg_end(input, k) matches Some(j) ==> k + 2 <= j <= input.len(),
    decreases input.len() - k,
{
    if k < 0 || k + 1 >= input.len() {
    } else if input[k] == TC_IAC && input[k + 1] == TC_SE {
    } else {
        lemma_subneg_end_after(input, k + 1);
    }
}

/// Reading telnet input from index `i`: the data bytes it holds (commands
/// removed, `IAC IAC` read as one 255 byte), the index where reading stops
/// because a command is cut off by the end of the input, and how many
/// times the peer asked for the window size (`IAC DO NAWS`).
///
/// A subnegotiation (`IAC SB` ... `IAC SE`) is skipped whole; when its end
/// is missing, reading stops two bytes before the last byte, or at the
/// `IAC` that opened it if that is later.
pub open spec fn telnet_scan(input: Seq<u8>, i: int) -> (Seq<u8>, int, nat)
    decreases input.len() - i,
{
    if i < 0 || i >= input.len() {
        (Seq::empty(), i, 0)
    } else if input[i] != TC_IAC {
        let r = telnet_scan(input, i + 1);
        (seq![input[i]] + r.0, r.1, r.2)
    } else if i + 1 >= input.len() {
        (Seq::empty(), i, 0)
    } else {
        let cmd = input[i + 1];
        if cmd == TC_IAC {
            let r = telnet_scan(input, i + 2);
            (seq![TC_IAC] + r.0, r.1, r.2)
        } else if cmd == TC_NOP {
            telnet_scan(input, i + 2)
        } else if cmd == TC_WILL || cmd == TC_WONT || cmd == TC_DO || cmd == TC_DONT {
            if i + 2 >= input.len() {
                (Seq::empty(), i, 0)
            } else {
                let r = telnet_scan(input, i + 3);
                (r.0, r.1, r.2 + if cmd == TC_DO && input[i + 2] == TO_NAWS { 1nat } else { 0nat })
            }
        } else if cmd == TC_SB {
            proof {
                lemma_subneg_end_after(input, i + 2);
            }
            match subneg_end(input, i + 2) {
                Some(j) => telnet_scan(input, j),
                None => (Seq::empty(), if i + 2 >= input.len() - 1 { i } else { input.len() - 3 }, 0),
            }
        } else {
            telnet_scan(input, i + 2)
        }
    }
}

/// Reading stops inside the input, and yields no more data bytes than it
/// read.
pub proof fn lemma_scan_bounds(input: Seq<u8>, i: int)
    requires
        0 <= i <= input.len(),
    ensures
        i <= telnet_scan(input, i).1 <= input.len(),
        telnet_scan(input, i).0.len() <= telnet_scan(input, i).1 - i,
    decreases input.len() - i,
{
    if i >= input.len() {
    } else if input[i] != TC_IAC {
        lemma_scan_bounds(input, i + 1);
    } else if i + 1 >= input.len() {
    } else {
        let cmd = input[i + 1];
        if cmd == TC_IAC || cmd == TC_NOP {
            lemma_scan_bounds(input, i + 2);
        } else if cmd == TC_WILL || cmd == TC_WONT || cmd == TC_DO || cmd == TC_DONT {
            if i + 2 < input.len() {
                lemma_scan_bounds(input, i + 3);
            }
        } else if cmd == TC_SB {
            lemma_subneg_end_after(input, i + 2);
            match subneg_end(input, i + 2) {
                Some(j) => lemma_scan_bounds(input, j),
                None => {},
            }
        } else {
            lemma_scan_bounds(input, i + 2);
        }
    }
}

/// Reading from `i` on, input without any `IAC` byte is all data.
proof fn lemma_plain_from(input: Seq<u8>, i: int)
    requires
        0 <= i <= input.len(),
        forall|j: int| 0 <= j < input.len() ==> input[j] != TC_IAC,
    ensures
        telnet_scan(input, i) == (input.subrange(i, input.len() as int), input.len() as int, 0nat),
    decreases input.len() - i,
{
    if i < input.len() {
        lemma_plain_from(input, i + 1);
        assert(seq![input[i]] + input.subrange(i + 1, input.len() as int) =~= input.subrange(i, input.len() as int));
    } else {
        assert(input.subrange(i, input.len() as int) =~= Seq::<u8>::empty());
    }
}

/// Input without any `IAC` byte passes through unchanged: all of it is
/// data, nothing is left over, and no window size is asked for.
pub proof fn law_plain_data_passes(input: Seq<u8>)
    requires
        forall|j: int| 0 <= j < input.len() ==> input[j] != TC_IAC,
    ensures
        telnet_scan(input, 0).0 == input,
        telnet_scan(input, 0).1 == input.len(),
        telnet_scan(input, 0).2 == 0,
{
    lemma_plain_from(input, 0);
    assert(input.subrange(0, input.len() as int) =~= input);
}

/// Filtering never makes input longer: the data and the left-over bytes
/// together are at most as long as the input.
pub proof fn law_filter_never_grows(input: Seq<u8>)
    ensures
        telnet_scan(input, 0).0.len() + (input.len() - telnet_scan(input, 0).1) <= input.len(),
        0 <= telnet_scan(input, 0).1 <= input.len(),
{
    lemma_scan_bounds(input, 0);
}

/// Data as it travels over telnet: every 255 byte doubled into `IAC IAC`.
pub open spec fn iac_escaped(data: Seq<u8>) -> Seq<u8>
    decreases data.len(),
{
    if data.len() == 0 {
        Seq::empty()
    } else {
        (if data[0] == TC_IAC { seq![TC_IAC, TC_IAC] } else { seq![data[0]] }) + iac_escaped(data.drop_first())
    }
}

/// Reading from `i` on, where the rest of the input is escaped data.
proof fn lemma_escaped_from(input: Seq<u8>, i: int, data: Seq<u8>)
    requires
        0 <= i <= input.len(),
        input.subrange(i, input.len() as int) == iac_escaped(data),
    ensures
        telnet_scan(input, i) == (data, input.len() as int, 0nat),
    decreases data.len(),
{
    if data.len() == 0 {
        assert(input.subrange(i, input.len() as int).len() == 0);
    } else {
        let rest = iac_escaped(data.drop_first());
        let tail_in = input.subrange(i, input.len() as int);
        if data[0] == TC_IAC {
            assert(tail_in == seq![TC_IAC, TC_IAC] + rest);
            assert(tail_in.len() == rest.len() + 2);
            assert(input[i] == input.subrange(i, input.len() as int)[0]);
            assert(input[i + 1] == input.subrange(i, input.len() as int)[1]);
            assert forall|k: int| 0 <= k < rest.len() implies #[trigger] rest[k] == input[i + 2 + k] by {
                assert(tail_in[2 + k] == rest[k]);
            }
            assert(input.subrange(i + 2, input.len() as int) =~= rest);
            lemma_escaped_from(input, i + 2, data.drop_first());
            assert(seq![TC_IAC] + data.drop_first() =~= data);
        } else {
            assert(tail_in == seq![data[0]] + rest);
            assert(tail_in.len() == rest.len() + 1);
            assert(input[i] == input.subrange(i, input.len() as int)[0]);
            assert forall|k: int| 0 <= k < rest.len() implies #[trigger] rest[k] == input[i + 1 + k] by {
                assert(tail_in[1 + k] == rest[k]);
            }
            assert(input.subrange(i + 1, input.len() as int) =~= rest);
            lemma_escaped_from(input, i + 1, data.drop_first());
            assert(seq![data[0]] + data.drop_first() =~= data);
        }
    }
}

/// Filtering undoes escaping: any data whose 255 bytes are doubled reads
/// back as exactly that data, with nothing left over and no window-size
/// request.
pub proof fn law_escaped_data_round_trip(data: Seq<u8>)
    ensures
        telnet_scan(iac_escaped(data), 0) == (data, iac_escaped(data).len() as int, 0nat),
{
    let input = iac_escaped(data);
    assert(input.subrange(0, input.len() as int) =~= input);
    lemma_escaped_from(input, 0, data);
}

/// Searching for the end of a subnegotiation from `d + k` in `x` is
/// searching from `k` in the part of `x` after `d`.
proof fn lemma_subneg_end_shift(x: Seq<u8>, d: int, k: int)
    requires
        0 <= d <= x.len(),
        0 <= k,
    ensures
        subneg_end(x, d + k) == (match subneg_end(x.subrange(d, x.len() as int), k) {
            Some(j) => Some(j + d),
            None => None,
        }),
    decreases x.len() - k,
{
    let y = x.subrange(d, x.len() as int);
    if d + k + 1 >= x.len() {
    } else {
        assert(x[d + k] == y[k] && x[d + k + 1] == y[k + 1]);
        if !(x[d + k] == TC_IAC && x[d + k + 1] == TC_SE) {
            lemma_subneg_end_shift(x, d, k + 1);
        }
    }
}

/// Reading `x` from `d + k` is reading the part of `x` after `d` from `k`,
/// with the stopping index moved by `d`.
proof fn lemma_scan_shift(x: Seq<u8>, d: int, k: int)
    requires
        0 <= d <= x.len(),
        0 <= k,
    ensures
        ({
            let r = telnet_scan(x.subrange(d, x.len() as int), k);
            telnet_scan(x, d + k) == (r.0, r.1 + d, r.2)
        }),
    decreases x.len() - k,
{
    let y = x.subrange(d, x.len() as int);
    let i = d + k;
    if i >= x.len() {
    } else {
        assert(x[i] == y[k]);
        if x[i] != TC_IAC {
            lemma_scan_shift(x, d, k + 1);
        } else if i + 1 >= x.len() {
        } else {
            assert(x[i + 1] == y[k + 1]);
            let cmd = x[i + 1];
            if cmd == TC_IAC || cmd == TC_NOP {
                lemma_scan_shift(x, d, k + 2);
            } else if cmd == TC_WILL || cmd == TC_WONT || cmd == TC_DO || cmd == TC_DONT {
                if i + 2 < x.len() {
                    assert(x[i + 2] == y[k + 2]);
                    lemma_scan_shift(x, d, k + 3);
                }
            } else if cmd == TC_SB {
                lemma_subneg_end_shift(x, d, k + 2);
                lemma_subneg_end_after(y, k + 2);
                match subneg_end(y, k + 2) {
                    Some(j) => {
                        lemma_scan_shift(x, d, j);
                    },
                    None => {},
                }
            } else {
                lemma_scan_shift(x, d, k + 2);
            }
        }
    }
}

/// A subnegotiation that ends inside `a` ends at the same place when more
/// input follows.
proof fn lemma_subneg_end_extend(a: Seq<u8>, b: Seq<u8>, k: int)
    requires
        0 <= k,
        subneg_end(a, k) is Some,
    ensures
        subneg_end(a + b, k) == subneg_end(a, k),
    decreases a.len() - k,
{
    assert((a + b)[k] == a[k] && (a + b)[k + 1] == a[k + 1]);
    if !(a[k] == TC_IAC && a[k + 1] == TC_SE) {
        lemma_subneg_end_extend(a, b, k + 1);
    }
}

/// Reading `a + b` from `i` reads what reading `a` from `i` reads, then
/// goes on from where that stopped, provided reading `a` stops at most two
/// bytes before its end.
proof fn lemma_scan_extend(a: Seq<u8>, b: Seq<u8>, i: int)
    requires
        0 <= i <= a.len(),
        telnet_scan(a, i).1 + 2 >= a.len(),
    ensures
        ({
            let r = telnet_scan(a, i);
            let t = telnet_scan(a + b, r.1);
            telnet_scan(a + b, i) == (r.0 + t.0, t.1, r.2 + t.2)
        }),
    decreases a.len() - i,
{
    let x = a + b;
    let r = telnet_scan(a, i);
    if i >= a.len() || r.1 == i {
        assert(Seq::<u8>::empty() + telnet_scan(x, i).0 =~= telnet_scan(x, i).0);
    } else {
        assert(x[i] == a[i]);
        if a[i] != TC_IAC {
            lemma_scan_extend(a, b, i + 1);
            let t = telnet_scan(x, r.1);
            assert(seq![a[i]] + (telnet_scan(a, i + 1).0 + t.0) =~= (seq![a[i]] + telnet_scan(a, i + 1).0) + t.0);
        } else {
            assert(x[i + 1] == a[i + 1]);
            let cmd = a[i + 1];
            if cmd == TC_IAC {
                lemma_scan_extend(a, b, i + 2);
                let t = telnet_scan(x, r.1);
                assert(seq![TC_IAC] + (telnet_scan(a, i + 2).0 + t.0) =~= (seq![TC_IAC] + telnet_scan(a, i + 2).0)
                    + t.0);
            } else if cmd == TC_NOP {
                lemma_scan_extend(a, b, i + 2);
            } else if cmd == TC_WILL || cmd == TC_WONT || cmd == TC_DO || cmd == TC_DONT {
                assert(x[i + 2] == a[i + 2]);
                lemma_scan_extend(a, b, i + 3);
            } else if cmd == TC_SB {
                lemma_subneg_end_after(a, i + 2);
                match subneg_end(a, i + 2) {
                    Some(j) => {
                        lemma_subneg_end_extend(a, b, i + 2);
                        lemma_scan_extend(a, b, j);
                    },
                    None => {},
                }
            } else {
                lemma_scan_extend(a, b, i + 2);
            }
        }
    }
}

/// Reading input in two parts gives what reading it whole gives: the data
/// of the first part followed by the data of its left-over bytes joined
/// to the second part, the same bytes left over, and as many window-size
/// requests. This holds whenever reading the first part stops at most two
/// bytes before its end, which is the case unless the first part ends
/// inside a subnegotiation opened more than two bytes before its end.
pub proof fn law_split_reads(a: Seq<u8>, b: Seq<u8>)
    requires
        telnet_scan(a, 0).1 + 2 >= a.len(),
    ensures
        ({
            let first = telnet_scan(a, 0);
            let rest = a.subrange(first.1, a.len() as int);
            let second = telnet_scan(rest + b, 0);
            let whole = telnet_scan(a + b, 0);
            &&& whole.0 == first.0 + second.0
            &&& whole.2 == first.2 + second.2
            &&& whole.1 == first.1 + second.1
            &&& (a + b).subrange(whole.1, (a + b).len() as int) == (rest + b).subrange(
                second.1,
                (rest + b).len() as int,
            )
        }),
{
    lemma_scan_bounds(a, 0);
    let first = telnet_scan(a, 0);
    let rest = a.subrange(first.1, a.len() as int);
    let x = a + b;
    lemma_scan_extend(a, b, 0);
    lemma_scan_shift(x, first.1, 0);
    assert(x.subrange(first.1, x.len() as int) =~= rest + b);
    let second = telnet_scan(rest + b, 0);
    lemma_scan_bounds(rest + b, 0);
    assert(x.subrange(first.1 + second.1, x.len() as int) =~= (rest + b).subrange(second.1, (rest + b).len() as int));
}

/// Reading `p + rest` from the length of `p` on is reading `rest`, with
/// the stopping index moved by that length.
proof fn lemma_scan_after_prefix(p: Seq<u8>, rest: Seq<u8>)
    ensures
        ({
            let r = telnet_scan(rest, 0);
            telnet_scan(p + rest, p.len() as int) == (r.0, r.1 + p.len(), r.2)
        }),
{
    let x = p + rest;
    lemma_scan_shift(x, p.len() as int, 0);
    assert(x.subrange(p.len() as int, x.len() as int) =~= rest);
}

/// In `x`, where a run of bytes from `k` up to `end` holds no `IAC` and
/// `IAC SE` follows at `end`, the subnegotiation ends after that `IAC SE`.
proof fn lemma_subneg_end_at(x: Seq<u8>, k: int, end: int)
    requires
        0 <= k <= end,
        end + 1 < x.len(),
        x[end] == TC_IAC,
        x[end + 1] == TC_SE,
        forall|j: int| k <= j < end ==> x[j] != TC_IAC,
    ensures
        subneg_end(x, k) == Some(end + 2),
    decreases end - k,
{
    if k < end {
        lemma_subneg_end_at(x, k + 1, end);
    }
}

/// How each telnet command at the head of the input is read, whatever
/// follows it (`rest`, read on its own, gives data `r.0`, stops at `r.1`
/// and counts `r.2` window-size requests):
/// - a byte other than `IAC` (255) is data;
/// - `IAC IAC` is one data byte 255;
/// - `IAC WILL`, `IAC WONT`, `IAC DO` and `IAC DONT` (251 to 254) with an
///   option byte are dropped, and only `IAC DO NAWS` (253, 31) counts as a
///   request for the window size;
/// - any other two-byte command (not `IAC SB`) is dropped;
/// - a subnegotiation `IAC SB` ... `IAC SE` (250 ... 240) is dropped whole;
/// - an `IAC` alone, or a negotiation without its option byte, at the end
///   of the input is left over with nothing after it read.
pub proof fn law_telnet_commands(b: u8, c: u8, o: u8, body: Seq<u8>, rest: Seq<u8>)
    ensures
        ({
            let r = telnet_scan(rest, 0);
            &&& b != 255 ==> telnet_scan(seq![b] + rest, 0) == (seq![b] + r.0, r.1 + 1, r.2)
            &&& telnet_scan(seq![255u8, 255u8] + rest, 0) == (seq![255u8] + r.0, r.1 + 2, r.2)
            &&& (c == 251 || c == 252 || c == 254) ==> telnet_scan(seq![255u8, c, o] + rest, 0) == (
                r.0,
                r.1 + 3,
                r.2,
            )
            &&& o != 31 ==> telnet_scan(seq![255u8, 253u8, o] + rest, 0) == (r.0, r.1 + 3, r.2)
            &&& telnet_scan(seq![255u8, 253u8, 31u8] + rest, 0) == (r.0, r.1 + 3, r.2 + 1)
            &&& c < 250 ==> telnet_scan(seq![255u8, c] + rest, 0) == (
                r.0,
                r.1 + 2,
                r.2,
            )
            &&& (forall|j: int| 0 <= j < body.len() ==> body[j] != 255) ==> telnet_scan(
                seq![255u8, 250u8] + body + seq![255u8, 240u8] + rest,
                0,
            ) == (r.0, r.1 + body.len() + 4, r.2)
            &&& telnet_scan(seq![255u8], 0) == (Seq::<u8>::empty(), 0int, 0nat)
            &&& 251 <= c <= 254 ==> telnet_scan(seq![255u8, c], 0) == (Seq::<u8>::empty(), 0int, 0nat)
        }),
{
    let r = telnet_scan(rest, 0);
    lemma_scan_after_prefix(seq![b], rest);
    assert((seq![b] + rest)[0] == b);
    lemma_scan_after_prefix(seq![255u8, 255u8], rest);
    assert((seq![255u8, 255u8] + rest)[1] == 255);
    lemma_scan_after_prefix(seq![255u8, c, o], rest);
    assert((seq![255u8, c, o] + rest)[1] == c && (seq![255u8, c, o] + rest)[2] == o);
    lemma_scan_after_prefix(seq![255u8, 253u8, o], rest);
    assert((seq![255u8, 253u8, o] + rest)[1] == 253 && (seq![255u8, 253u8, o] + rest)[2] == o);
    lemma_scan_after_prefix(seq![255u8, 253u8, 31u8], rest);
    assert((seq![255u8, 253u8, 31u8] + rest)[1] == 253 && (seq![255u8, 253u8, 31u8] + rest)[2] == 31);
    lemma_scan_after_prefix(seq![255u8, c], rest);
    assert((seq![255u8, c] + rest)[1] == c);
    if forall|j: int| 0 <= j < body.len() ==> body[j] != 255 {
        let p = seq![255u8, 250u8] + body + seq![255u8, 240u8];
        let x = p + rest;
        let end: int = body.len() as int + 2;
        assert(x[0] == 255 && x[1] == 250);
        assert(x[end] == 255 && x[end + 1] == 240);
        assert forall|j: int| 2 <= j < end implies x[j] != TC_IAC by {
            assert(x[j] == body[j - 2]);
        }
        lemma_subneg_end_at(x, 2, end);
        lemma_scan_after_prefix(p, rest);
        assert(p.len() == body.len() + 4);
    }
}

/// In `x`, with no `IAC` from `k` on, no subnegotiation end is found.
proof fn lemma_subneg_end_missing(x: Seq<u8>, k: int)
    requires
        0 <= k,
        forall|j: int| k <= j < x.len() ==> x[j] != TC_IAC,
    ensures
        subneg_end(x, k) is None,
    decreases x.len() - k,
{
    if k + 1 < x.len() {
        lemma_subneg_end_missing(x, k + 1);
    }
}

/// A subnegotiation whose `IAC SE` has not arrived yet ends the read with
/// no data from it: as the reading loop leaves it, the last three bytes of
/// the input (all of it when it is shorter) are kept for the next read.
pub proof fn law_telnet_open_subnegotiation(body: Seq<u8>)
    requires
        forall|j: int| 0 <= j < body.len() ==> body[j] != 255,
    ensures
        telnet_scan(seq![255u8, 250u8] + body, 0) == (
            Seq::<u8>::empty(),
            if body.len() <= 1 { 0int } else { body.len() - 1 },
            0nat,
        ),
{
    let x = seq![255u8, 250u8] + body;
    assert(x[0] == 255 && x[1] == 250);
    assert forall|j: int| 2 <= j < x.len() implies x[j] != TC_IAC by {
        assert(x[j] == body[j - 2]);
    }
    lemma_subneg_end_missing(x, 2);
}

/// What one read from a telnet connection holds: the data bytes, the
/// unfinished command left for the next read, and how many window-size
/// reports the peer asked for.
pub struct TelnetInput {
    pub data: Vec<u8>,
    pub rest: Vec<u8>,
    pub naws_requests: usize,
}

/// The bytes from `from` to the end of `input`.
fn tail(input: &[u8], from: usize) -> (t: Vec<u8>)
    requires
        from <= input@.len(),
    ensures
        t@ == input@.subrange(from as int, input@.len() as int),
{
    let mut t: Vec<u8> = Vec::new();
    let mut k = from;
    while k < input.len()
        invariant
            from <= k <= input@.len(),
            t@ == input@.subrange(from as int, k as int),
        decreases input@.len() - k,
    {
        t.push(input[k]);
        k += 1;
        assert(t@ =~= input@.subrange(from as int, k as int));
    }
    t
}

/// Separates the data bytes of telnet input from its commands (see
/// [`telnet_scan`]).
pub fn filter_telnet(input: &[u8]) -> (r: TelnetInput)
    ensures
        r.data@ == telnet_scan(input@, 0).0,
        r.naws_requests == telnet_scan(input@, 0).2,
        0 <= telnet_scan(input@, 0).1 <= input@.len(),
        r.rest@ == input@.subrange(telnet_scan(input@, 0).1, input@.len() as int),
{
    let ghost whole = telnet_scan(input@, 0);
    let mut out: Vec<u8> = Vec::with_capacity(input.len());
    let mut naws: usize = 0;
    let mut i: usize = 0;
    proof {
        lemma_scan_bounds(input@, 0);
    }
    while i < input.len()
        invariant_except_break
            i <= input@.len(),
            out@ + telnet_scan(input@, i as int).0 == whole.0,
            naws + telnet_scan(input@, i as int).2 == whole.2,
            telnet_scan(input@, i as int).1 == whole.1,
            out@.len() <= i,
            naws <= i,
        ensures
            i <= input@.len(),
            out@ == whole.0,
            naws == whole.2,
            i == whole.1,
        decreases input@.len() - i,
    {
        let b = input[i];
        if b != TC_IAC {
            out.push(b);
            i += 1;
            assert(out@ + telnet_scan(input@, i as int).0 =~= whole.0);
            continue;
        }
        if i + 1 >= input.len() {
            assert(out@ =~= whole.0);
            break;
        }
        let cmd = input[i + 1];
        if cmd == TC_IAC {
            out.push(TC_IAC);
            i += 2;
            assert(out@ + telnet_scan(input@, i as int).0 =~= whole.0);
        } else if cmd == TC_NOP {
            i += 2;
        } else if cmd == TC_WILL || cmd == TC_WONT || cmd == TC_DO || cmd == TC_DONT {
            if i + 2 >= input.len() {
                assert(out@ =~= whole.0);
                break;
            }
            let opt = input[i + 2];
            if cmd == TC_DO && opt == TO_NAWS {
                naws += 1;
            }
            i += 3;
        } else if cmd == TC_SB {
            let ghost start = i as int;
            proof {
                lemma_subneg_end_after(input@, start + 2);
            }
            i += 2;
            let mut complete = false;
            while input.len() > 0 && i < input.len() - 1
                invariant_except_break
                    start + 2 <= i <= input@.len(),
                    i > start + 2 ==> i <= input@.len() - 1,
                    subneg_end(input@, start + 2) == subneg_end(input@, i as int),
                    !complete,
                ensures
                    complete ==> subneg_end(input@, start + 2) == Some(i as int),
                    !complete ==> subneg_end(input@, start + 2) is None,
                    !complete ==> i == (if start + 2 >= input@.len() - 1 { start + 2 } else { input@.len() - 1 }),
                    i <= input@.len(),
                decreases input@.len() - i,
            {
                if input[i] == TC_IAC && input[i + 1] == TC_SE {
                    i += 2;
                    complete = true;
                    break;
                }
                i += 1;
            }
            if !complete {
                i = if i >= 2 { i - 2 } else { 0 };
                assert(out@ =~= whole.0);
                break;
            }
        } else {
            i += 2;
        }
    }
    let rest = if i < input.len() { tail(input, i) } else { Vec::new() };
    assert(i < input@.len() || rest@ =~= input@.subrange(i as int, input@.len() as int));
    TelnetInput { data: out, rest, naws_requests: naws }
}

/// The offer to report the window size: `IAC WILL NAWS`.
pub fn naws_will() -> (v: Vec<u8>)
    ensures
        v@ == seq![TC_IAC, TC_WILL, TO_NAWS],
{
    let mut v: Vec<u8> = Vec::new();
    v.push(TC_IAC);
    v.push(TC_WILL);
    v.push(TO_NAWS);
    v
}

/// The window-size report `IAC SB NAWS cols rows IAC SE`, each size as two
/// bytes, high byte first.
pub fn naws_size(cols: u16, rows: u16) -> (v: Vec<u8>)
    ensures
        v@ == seq![
            TC_IAC,
            TC_SB,
            TO_NAWS,
            (cols / 256) as u8,
            (cols % 256) as u8,
            (rows / 256) as u8,
            (rows % 256) as u8,
            TC_IAC,
            TC_SE,
        ],
{
    let mut v: Vec<u8> = Vec::new();
    v.push(TC_IAC);
    v.push(TC_SB);
    v.push(TO_NAWS);
    assert((cols >> 8) == cols / 256 && (cols & 0xff) == cols % 256) by (bit_vector);
    assert((rows >> 8) == rows / 256 && (rows & 0xff) == rows % 256) by (bit_vector);
    v.push((cols >> 8) as u8);
    v.push((cols & 0xff) as u8);
    v.push((rows >> 8) as u8);
    v.push((rows & 0xff) as u8);
    v.push(TC_IAC);
    v.push(TC_SE);
    v
}

} // verus!
