//! Request metrics: a monotonic request counter and a duration histogram,
//! together with their rendering in the Prometheus text exposition format.
//! The state is a plain value; whoever runs the server holds it behind a
//! process-wide lock and updates it on every request.

use vstd::prelude::*;
use vstd::pervasive::VecAdditionalExecFns;
use vstd::string::StringExecFns;

verus! {

/// The number of histogram buckets, not counting the implicit infinity one.
pub const BUCKET_COUNT: usize = 11;

/// Upper bound of bucket `i` in milliseconds. The bounds rise with `i`.
pub open spec fn bucket_bound(i: int) -> u64 {
    if i == 0 {
        5
    } else if i == 1 {
        10
    } else if i == 2 {
        25
    } else if i == 3 {
        50
    } else if i == 4 {
        100
    } else if i == 5 {
        250
    } else if i == 6 {
        500
    } else if i == 7 {
        1000
    } else if i == 8 {
        2500
    } else if i == 9 {
        5000
    } else {
        10000
    }
}

fn bucket_limit(i: usize) -> (r: u64)
    requires
        i < BUCKET_COUNT,
    ensures
        r == bucket_bound(i as int),
{
    if i == 0 {
        5
    } else if i == 1 {
        10
    } else if i == 2 {
        25
    } else if i == 3 {
        50
    } else if i == 4 {
        100
    } else if i == 5 {
        250
    } else if i == 6 {
        500
    } else if i == 7 {
        1000
    } else if i == 8 {
        2500
    } else if i == 9 {
        5000
    } else {
        10000
    }
}

/// Process-wide metrics: how many requests came in, and how their durations
/// distribute. Durations are held in milliseconds. Bucket counts are
/// cumulative, as the exposition format publishes them.
pub struct MetricsState {
    pub http_requests_total: u64,
    pub duration_count: u64,
    pub duration_sum_ms: u64,
    pub buckets: Vec<u64>,
}

impl MetricsState {
    /// The histogram's shape: a fixed number of buckets, each cumulative
    /// count within the observation count, and counts rising with the bound.
    pub open spec fn well_formed(&self) -> bool {
        &&& self.buckets@.len() == BUCKET_COUNT
        &&& forall|i: int| 0 <= i < BUCKET_COUNT ==> self.buckets@[i] <= self.duration_count
        &&& forall|i: int, j: int|
            0 <= i <= j < BUCKET_COUNT ==> self.buckets@[i] <= self.buckets@[j]
    }

    /// One more request. The counter only ever grows, and by exactly one per
    /// call, so increments from concurrent requests accumulate.
    pub fn inc_requests(&mut self)
        requires
            old(self).http_requests_total < u64::MAX,
        ensures
            final(self).http_requests_total == old(self).http_requests_total + 1,
            final(self).duration_count == old(self).duration_count,
            final(self).duration_sum_ms == old(self).duration_sum_ms,
            final(self).buckets@ == old(self).buckets@,
            old(self).well_formed() ==> final(self).well_formed(),
    {
        self.http_requests_total = self.http_requests_total + 1;
    }

    /// One duration observation: the count, the sum and every bucket whose
    /// bound the duration does not exceed each grow by one step.
    pub fn observe_duration_ms(&mut self, duration_ms: u64)
        requires
            old(self).well_formed(),
            old(self).duration_count < u64::MAX,
            old(self).duration_sum_ms + duration_ms <= u64::MAX,
        ensures
            final(self).well_formed(),
            final(self).http_requests_total == old(self).http_requests_total,
            final(self).duration_count == old(self).duration_count + 1,
            final(self).duration_sum_ms == old(self).duration_sum_ms + duration_ms,
            final(self).buckets@.len() == BUCKET_COUNT,
            forall|i: int|
                0 <= i < BUCKET_COUNT ==> final(self).buckets@[i] == old(self).buckets@[i] + (
                if duration_ms <= bucket_bound(i) {
                    1int
                } else {
                    0int
                }),
    {
        let ghost m0 = *self;
        let mut i: usize = 0;
        while i < BUCKET_COUNT
            invariant
                i <= BUCKET_COUNT,
                m0 == *old(self),
                m0.well_formed(),
                m0.duration_count < u64::MAX,
                self.http_requests_total == m0.http_requests_total,
                self.duration_count == m0.duration_count,
                self.duration_sum_ms == m0.duration_sum_ms,
                self.buckets@.len() == BUCKET_COUNT,
                forall|k: int|
                    0 <= k < i ==> self.buckets@[k] == m0.buckets@[k] + (
                    if duration_ms <= bucket_bound(k) {
                        1int
                    } else {
                        0int
                    }),
                forall|k: int| i <= k < BUCKET_COUNT ==> self.buckets@[k] == m0.buckets@[k],
            decreases BUCKET_COUNT - i,
        {
            if duration_ms <= bucket_limit(i) {
                proof {
                    assert(self.buckets@[i as int] == m0.buckets@[i as int]);
                    assert(m0.buckets@[i as int] <= m0.duration_count);
                }
                let bumped = self.buckets[i] + 1;
                self.buckets.set(i, bumped);
            }
            i = i + 1;
        }
        self.duration_count = self.duration_count + 1;
        self.duration_sum_ms = self.duration_sum_ms + duration_ms;
    }
}

/// Fresh metrics at startup: everything at zero. Called exactly once, before
/// the server accepts connections.
pub fn init_metrics() -> (m: MetricsState)
    ensures
        m.well_formed(),
        m.http_requests_total == 0,
        m.duration_count == 0,
        m.duration_sum_ms == 0,
        forall|i: int| 0 <= i < BUCKET_COUNT ==> m.buckets@[i] == 0,
{
    let mut buckets: Vec<u64> = Vec::new();
    let mut i: usize = 0;
    while i < BUCKET_COUNT
        invariant
            i <= BUCKET_COUNT,
            buckets@.len() == i,
            forall|k: int| 0 <= k < i ==> buckets@[k] == 0,
        decreases BUCKET_COUNT - i,
    {
        buckets.push(0);
        i = i + 1;
    }
    MetricsState { http_requests_total: 0, duration_count: 0, duration_sum_ms: 0, buckets }
}

/// The requests counter after a batch of increments, one per request.
pub open spec fn counter_after(c: nat, n: nat) -> nat
    decreases n,
{
    if n == 0 {
        c
    } else {
        counter_after(c, (n - 1) as nat) + 1
    }
}

/// Increments accumulate: however a batch of requests interleaves, each adds
/// exactly one, so after n of them the counter reads the old value plus n.
pub proof fn lemma_counter_accumulates(c: nat, n: nat)
    ensures
        counter_after(c, n) == c + n,
    decreases n,
{
    if n > 0 {
        lemma_counter_accumulates(c, (n - 1) as nat);
    }
}

/// The decimal digit character for a value below ten.
pub open spec fn digit_char(d: nat) -> char {
    if d == 0 {
        '0'
    } else if d == 1 {
        '1'
    } else if d == 2 {
        '2'
    } else if d == 3 {
        '3'
    } else if d == 4 {
        '4'
    } else if d == 5 {
        '5'
    } else if d == 6 {
        '6'
    } else if d == 7 {
        '7'
    } else if d == 8 {
        '8'
    } else {
        '9'
    }
}

/// The decimal rendering of a number, most significant digit first, with no
/// leading zeros except on zero itself.
pub open spec fn dec_of(n: nat) -> Seq<char>
    decreases n,
{
    if n < 10 {
        seq![digit_char(n)]
    } else {
        dec_of(n / 10).push(digit_char(n % 10))
    }
}

fn digit_str(d: u64) -> (r: &'static str)
    requires
        d < 10,
    ensures
        r@ == dec_of(d as nat),
{
    proof {
        reveal_strlit("0");
        reveal_strlit("1");
        reveal_strlit("2");
        reveal_strlit("3");
        reveal_strlit("4");
        reveal_strlit("5");
        reveal_strlit("6");
        reveal_strlit("7");
        reveal_strlit("8");
        reveal_strlit("9");
    }
    let r = if d == 0 {
        "0"
    } else if d == 1 {
        "1"
    } else if d == 2 {
        "2"
    } else if d == 3 {
        "3"
    } else if d == 4 {
        "4"
    } else if d == 5 {
        "5"
    } else if d == 6 {
        "6"
    } else if d == 7 {
        "7"
    } else if d == 8 {
        "8"
    } else {
        "9"
    };
    proof {
        assert(r@ =~= dec_of(d as nat));
    }
    r
}

/// Renders a number in decimal.
pub fn u64_to_string(n: u64) -> (r: String)
    ensures
        r@ == dec_of(n as nat),
    decreases n,
{
    if n < 10 {
        digit_str(n).to_string()
    } else {
        let prefix = u64_to_string(n / 10);
        let r = prefix.concat(digit_str(n % 10));
        proof {
            assert(r@ =~= dec_of(n as nat));
        }
        r
    }
}

/// A fractional count of milliseconds rendered as three digits.
pub open spec fn frac3_of(f: nat) -> Seq<char> {
    if f < 10 {
        seq!['0', '0'] + dec_of(f)
    } else if f < 100 {
        seq!['0'] + dec_of(f)
    } else {
        dec_of(f)
    }
}

/// Milliseconds rendered as decimal seconds with three fractional digits.
pub open spec fn secs_of(ms: nat) -> Seq<char> {
    dec_of(ms / 1000) + seq!['.'] + frac3_of(ms % 1000)
}

/// Renders a duration held in milliseconds as seconds, the unit the
/// exposition format publishes durations in.
pub fn ms_to_seconds_string(ms: u64) -> (r: String)
    ensures
        r@ == secs_of(ms as nat),
{
    proof {
        reveal_strlit(".");
        reveal_strlit("0");
        reveal_strlit("00");
    }
    let mut s = u64_to_string(ms / 1000);
    s.append(".");
    let frac = ms % 1000;
    if frac < 10 {
        s.append("00");
    } else if frac < 100 {
        s.append("0");
    }
    let frac_str = u64_to_string(frac);
    s.append(frac_str.as_str());
    proof {
        assert(s@ =~= secs_of(ms as nat));
    }
    s
}

/// The `le` label of bucket `i`: its bound rendered in seconds, as the
/// exposition format writes it.
pub open spec fn bucket_label(i: int) -> Seq<char> {
    if i == 0 {
        "0.005"@
    } else if i == 1 {
        "0.01"@
    } else if i == 2 {
        "0.025"@
    } else if i == 3 {
        "0.05"@
    } else if i == 4 {
        "0.1"@
    } else if i == 5 {
        "0.25"@
    } else if i == 6 {
        "0.5"@
    } else if i == 7 {
        "1"@
    } else if i == 8 {
        "2.5"@
    } else if i == 9 {
        "5"@
    } else {
        "10"@
    }
}

fn bucket_label_str(i: usize) -> (r: &'static str)
    requires
        i < BUCKET_COUNT,
    ensures
        r@ == bucket_label(i as int),
{
    if i == 0 {
        "0.005"
    } else if i == 1 {
        "0.01"
    } else if i == 2 {
        "0.025"
    } else if i == 3 {
        "0.05"
    } else if i == 4 {
        "0.1"
    } else if i == 5 {
        "0.25"
    } else if i == 6 {
        "0.5"
    } else if i == 7 {
        "1"
    } else if i == 8 {
        "2.5"
    } else if i == 9 {
        "5"
    } else {
        "10"
    }
}

/// One bucket line of the histogram exposition.
pub open spec fn bucket_line(b: Seq<u64>, i: int) -> Seq<char> {
    "http_request_duration_seconds_bucket{le=\""@ + bucket_label(i) + "\"} "@ + dec_of(
        b[i] as nat,
    ) + "\n"@
}

/// The bucket lines for buckets `0 .. i`, in order.
pub open spec fn bucket_lines_upto(b: Seq<u64>, i: int) -> Seq<char>
    decreases i,
{
    if i <= 0 {
        Seq::empty()
    } else {
        bucket_lines_upto(b, i - 1) + bucket_line(b, i - 1)
    }
}

/// The counter block: help and type comments, then the counter sample, then
/// the histogram's help and type comments.
pub open spec fn render_counter_block(m: MetricsState) -> Seq<char> {
    "# HELP http_requests_total Total number of HTTP requests\n# TYPE http_requests_total counter\nhttp_requests_total "@
        + dec_of(m.http_requests_total as nat) + "\n"@
        + "# HELP http_request_duration_seconds HTTP request duration in seconds\n# TYPE http_request_duration_seconds histogram\n"@
}

/// The histogram's closing lines: the infinity bucket, the sum in seconds
/// and the observation count.
pub open spec fn render_tail(m: MetricsState) -> Seq<char> {
    "http_request_duration_seconds_bucket{le=\"+Inf\"} "@ + dec_of(m.duration_count as nat)
        + "\n"@ + "http_request_duration_seconds_sum "@ + secs_of(m.duration_sum_ms as nat)
        + "\n"@ + "http_request_duration_seconds_count "@ + dec_of(m.duration_count as nat)
        + "\n"@
}

/// The whole exposition text of a metrics state.
pub open spec fn spec_render(m: MetricsState) -> Seq<char> {
    render_counter_block(m) + bucket_lines_upto(m.buckets@, BUCKET_COUNT as int) + render_tail(m)
}

/// Renders the metrics in the Prometheus text exposition format, exactly as
/// `spec_render` lays it out. Rendering cannot fail.
pub fn render_metrics(m: &MetricsState) -> (r: String)
    requires
        m.well_formed(),
    ensures
        r@ == spec_render(*m),
{
    let mut s = String::new();
    s.append(
        "# HELP http_requests_total Total number of HTTP requests\n# TYPE http_requests_total counter\nhttp_requests_total ",
    );
    let requests = u64_to_string(m.http_requests_total);
    s.append(requests.as_str());
    s.append("\n");
    s.append(
        "# HELP http_request_duration_seconds HTTP request duration in seconds\n# TYPE http_request_duration_seconds histogram\n",
    );
    proof {
        assert(s@ =~= render_counter_block(*m) + bucket_lines_upto(m.buckets@, 0));
    }
    let mut i: usize = 0;
    while i < BUCKET_COUNT
        invariant
            i <= BUCKET_COUNT,
            m.well_formed(),
            s@ == render_counter_block(*m) + bucket_lines_upto(m.buckets@, i as int),
        decreases BUCKET_COUNT - i,
    {
        s.append("http_request_duration_seconds_bucket{le=\"");
        s.append(bucket_label_str(i));
        s.append("\"} ");
        let count = u64_to_string(m.buckets[i]);
        s.append(count.as_str());
        s.append("\n");
        proof {
            assert(s@ =~= render_counter_block(*m) + bucket_lines_upto(
                m.buckets@,
                i as int + 1,
            ));
        }
        i = i + 1;
    }
    s.append("http_request_duration_seconds_bucket{le=\"+Inf\"} ");
    let observations = u64_to_string(m.duration_count);
    s.append(observations.as_str());
    s.append("\n");
    s.append("http_request_duration_seconds_sum ");
    let sum = ms_to_seconds_string(m.duration_sum_ms);
    s.append(sum.as_str());
    s.append("\n");
    s.append("http_request_duration_seconds_count ");
    let observations_again = u64_to_string(m.duration_count);
    s.append(observations_again.as_str());
    s.append("\n");
    proof {
        assert(s@ =~= spec_render(*m));
    }
    s
}

/// The needle occurs somewhere in the haystack as a contiguous run.
pub open spec fn contains_seq(hay: Seq<char>, needle: Seq<char>) -> bool {
    exists|k: int|
        0 <= k && k + needle.len() <= hay.len() && #[trigger] hay.subrange(k, k + needle.len())
            == needle
}

/// An occurrence survives appending on the right.
pub proof fn lemma_contains_append_left(a: Seq<char>, b: Seq<char>, needle: Seq<char>)
    requires
        contains_seq(a, needle),
    ensures
        contains_seq(a + b, needle),
{
    let k = choose|k: int|
        0 <= k && k + needle.len() <= a.len() && #[trigger] a.subrange(k, k + needle.len())
            == needle;
    assert((a + b).subrange(k, k + needle.len() as int) =~= a.subrange(
        k,
        k + needle.len() as int,
    ));
}

/// An occurrence survives appending on the left.
pub proof fn lemma_contains_append_right(a: Seq<char>, b: Seq<char>, needle: Seq<char>)
    requires
        contains_seq(b, needle),
    ensures
        contains_seq(a + b, needle),
{
    let k = choose|k: int|
        0 <= k && k + needle.len() <= b.len() && #[trigger] b.subrange(k, k + needle.len())
            == needle;
    assert((a + b).subrange(a.len() + k, a.len() + k + needle.len() as int) =~= b.subrange(
        k,
        k + needle.len() as int,
    ));
}

/// The exposition text of any metrics state names both metrics: it contains
/// `http_requests_total` and `http_request_duration_seconds`.
pub proof fn lemma_metrics_text_names(m: MetricsState)
    ensures
        contains_seq(spec_render(m), "http_requests_total"@),
        contains_seq(spec_render(m), "http_request_duration_seconds"@),
{
    reveal_strlit("http_requests_total");
    reveal_strlit("http_request_duration_seconds");
    reveal_strlit(
        "# HELP http_requests_total Total number of HTTP requests\n# TYPE http_requests_total counter\nhttp_requests_total ",
    );
    reveal_strlit(
        "# HELP http_request_duration_seconds HTTP request duration in seconds\n# TYPE http_request_duration_seconds histogram\n",
    );
    let counter_help =
        "# HELP http_requests_total Total number of HTTP requests\n# TYPE http_requests_total counter\nhttp_requests_total "@;
    let histogram_help =
        "# HELP http_request_duration_seconds HTTP request duration in seconds\n# TYPE http_request_duration_seconds histogram\n"@;
    let counter_name = "http_requests_total"@;
    let histogram_name = "http_request_duration_seconds"@;
    assert(counter_help.subrange(7, 7 + counter_name.len() as int) =~= counter_name);
    assert(contains_seq(counter_help, counter_name));
    lemma_contains_append_left(counter_help, dec_of(m.http_requests_total as nat), counter_name);
    lemma_contains_append_left(
        counter_help + dec_of(m.http_requests_total as nat),
        "\n"@,
        counter_name,
    );
    lemma_contains_append_left(
        counter_help + dec_of(m.http_requests_total as nat) + "\n"@,
        histogram_help,
        counter_name,
    );
    lemma_contains_append_left(
        render_counter_block(m),
        bucket_lines_upto(m.buckets@, BUCKET_COUNT as int),
        counter_name,
    );
    lemma_contains_append_left(
        render_counter_block(m) + bucket_lines_upto(m.buckets@, BUCKET_COUNT as int),
        render_tail(m),
        counter_name,
    );
    assert(histogram_help.subrange(7, 7 + histogram_name.len() as int) =~= histogram_name);
    assert(contains_seq(histogram_help, histogram_name));
    lemma_contains_append_right(
        counter_help + dec_of(m.http_requests_total as nat) + "\n"@,
        histogram_help,
        histogram_name,
    );
    lemma_contains_append_left(
        render_counter_block(m),
        bucket_lines_upto(m.buckets@, BUCKET_COUNT as int),
        histogram_name,
    );
    lemma_contains_append_left(
        render_counter_block(m) + bucket_lines_upto(m.buckets@, BUCKET_COUNT as int),
        render_tail(m),
        histogram_name,
    );
}

} // verus!
