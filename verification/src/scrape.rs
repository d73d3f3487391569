//! The metrics endpoint's logic: one served route, rendered from the
//! current metric set.
//!
//! The embedding process accepts connections and moves bytes; this module
//! decides the reply. A GET on the metrics path gets the text exposition
//! of the metric set under the scrape content type; every other method or
//! path gets an empty not-found reply. The reply is a function of the
//! metric values handed in and nothing else, so concurrent pipeline
//! activity cannot make it wrong — a scrape simply sees the values of the
//! moment it read them.

use vstd::prelude::*;
use vstd::string::StringExecFns;

use crate::metrics::MetricCounterSet;

verus! {

/// One decimal digit as text.
pub open spec fn spec_digit(d: nat) -> Seq<char> {
    if d == 0 {
        "0"@
    } else if d == 1 {
        "1"@
    } else if d == 2 {
        "2"@
    } else if d == 3 {
        "3"@
    } else if d == 4 {
        "4"@
    } else if d == 5 {
        "5"@
    } else if d == 6 {
        "6"@
    } else if d == 7 {
        "7"@
    } else if d == 8 {
        "8"@
    } else {
        "9"@
    }
}

/// The decimal text of a number: its digits in order, no sign, no
/// leading zero except for zero itself.
pub open spec fn dec_digits(n: nat) -> Seq<char>
    decreases n,
{
    if n < 10 {
        spec_digit(n)
    } else {
        dec_digits(n / 10) + spec_digit(n % 10)
    }
}

fn digit_text(d: u64) -> (r: &'static str)
    requires
        d < 10,
    ensures
        r@ == spec_digit(d as nat),
{
    if d == 0 {
        "0"
    } else if d == 1 {
        "1"
    } else if d == 2 {
        "2"
    } else if d == 3 {
        "3"
    } else if d == 4 {
        "4"
    } else if d == 5 {
        "5"
    } else if d == 6 {
        "6"
    } else if d == 7 {
        "7"
    } else if d == 8 {
        "8"
    } else {
        "9"
    }
}

/// Renders a metric value in decimal.
pub fn render_u64(n: u64) -> (s: String)
    ensures
        s@ == dec_digits(n as nat),
    decreases n,
{
    if n < 10 {
        String::from_str(digit_text(n))
    } else {
        let mut s = render_u64(n / 10);
        s.append(digit_text(n % 10));
        s
    }
}

/// The text exposition of the metric set: for each of the two metrics a
/// type comment and a line with its name and current value, counter
/// first.
pub open spec fn exposition_of(m: MetricCounterSet) -> Seq<char> {
    "# TYPE exp_sigquit_total counter\nexp_sigquit_total "@ + dec_digits(m.trigger_total as nat)
        + "\n# TYPE rkt_images_total gauge\nrkt_images_total "@ + dec_digits(
        m.inventory_size as nat,
    ) + "\n"@
}

/// Renders the metric set in the scrape text format.
pub fn render_exposition(m: &MetricCounterSet) -> (s: String)
    ensures
        s@ == exposition_of(*m),
{
    let mut s = String::from_str("# TYPE exp_sigquit_total counter\nexp_sigquit_total ");
    let triggers = render_u64(m.trigger_total);
    s.append(triggers.as_str());
    s.append("\n# TYPE rkt_images_total gauge\nrkt_images_total ");
    let inventory = render_u64(m.inventory_size);
    s.append(inventory.as_str());
    s.append("\n");
    proof {
        assert(s@ =~= exposition_of(*m));
    }
    s
}

/// The one route the endpoint serves.
pub open spec fn is_scrape_request(method: Seq<char>, path: Seq<char>) -> bool {
    method == "GET"@ && path == "/metrics"@
}

/// The reply of the metrics endpoint to one request.
pub struct ScrapeResponse {
    /// 200 for the one served route, 404 for every other request.
    pub status: u16,
    pub content_type: String,
    pub body: String,
}

/// The content type under which the scrape text format is served.
pub fn scrape_content_type() -> (r: &'static str)
    ensures
        r@ == "text/plain; version=0.0.4"@,
{
    "text/plain; version=0.0.4"
}

/// Answers one request to the metrics endpoint from the current metric
/// values.
pub fn scrape_response(method: &String, path: &String, m: &MetricCounterSet) -> (r: ScrapeResponse)
    ensures
        is_scrape_request(method@, path@) ==> r.status == 200 && r.body@ == exposition_of(*m)
            && r.content_type@ == "text/plain; version=0.0.4"@,
        !is_scrape_request(method@, path@) ==> r.status == 404 && r.body@ == Seq::<char>::empty()
            && r.content_type@ == Seq::<char>::empty(),
{
    let get = String::from_str("GET");
    let metrics_path = String::from_str("/metrics");
    if method.eq(&get) && path.eq(&metrics_path) {
        ScrapeResponse {
            status: 200,
            content_type: String::from_str(scrape_content_type()),
            body: render_exposition(m),
        }
    } else {
        ScrapeResponse { status: 404, content_type: String::new(), body: String::new() }
    }
}

} // verus!
