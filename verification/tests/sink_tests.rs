use domain_checker::check::DomainCheck;
use domain_checker::check::Verdict;
use domain_checker::sink::Sink;
use domain_checker::sink::SinkPair;
use domain_checker::text::prepare_line;

#[test]
fn sink_records_lines_in_order() {
    let mut sink = Sink::new();
    assert_eq!(sink.line_count(), 0);
    sink.record(String::from("first"));
    sink.record(String::from("second"));
    assert_eq!(sink.line_count(), 2);
    assert_eq!(sink.line(0).as_str(), "first");
    assert_eq!(sink.line(1).as_str(), "second");
}

#[test]
fn sink_text_is_line_delimited() {
    let mut sink = Sink::new();
    assert_eq!(sink.rendered_text().as_str(), "");
    sink.record(String::from("a.example"));
    sink.record(String::from("b.example"));
    sink.record(String::from("c.example"));
    assert_eq!(sink.rendered_text().as_str(), "a.example\nb.example\nc.example\n");
}

#[test]
fn live_verdict_lands_as_bare_host() {
    let mut sinks = SinkPair::new();
    let verdict = Verdict::Live { url: String::from("https://example.com"), status: 200 };
    sinks.record_verdict(&verdict);
    assert_eq!(sinks.live.line_count(), 1);
    assert_eq!(sinks.live.line(0).as_str(), "example.com");
    assert_eq!(sinks.dead.line_count(), 0);
}

#[test]
fn dead_verdict_lands_as_given() {
    let mut sinks = SinkPair::new();
    let verdict = Verdict::Dead { domain: String::from("bad..domain") };
    sinks.record_verdict(&verdict);
    assert_eq!(sinks.dead.line_count(), 1);
    assert_eq!(sinks.dead.line(0).as_str(), "bad..domain");
    assert_eq!(sinks.live.line_count(), 0);
}

#[test]
fn one_line_per_verdict() {
    let mut sinks = SinkPair::new();
    let verdicts = vec![
        Verdict::Live { url: String::from("http://a.example"), status: 200 },
        Verdict::Dead { domain: String::from("b.example") },
        Verdict::Live { url: String::from("https://c.example"), status: 204 },
    ];
    for v in &verdicts {
        sinks.record_verdict(v);
    }
    assert_eq!(sinks.live.line_count() + sinks.dead.line_count(), verdicts.len());
    assert_eq!(sinks.live.line(0).as_str(), "a.example");
    assert_eq!(sinks.dead.line(0).as_str(), "b.example");
    assert_eq!(sinks.live.line(1).as_str(), "c.example");
}

fn scripted_probe(url: &str) -> Option<u16> {
    match url {
        "http://example.com" => Some(503),
        "https://example.com" => Some(200),
        "http://example.org" => Some(200),
        _ => None,
    }
}

#[test]
fn end_to_end_example() {
    let input = ["example.com", "", "bad..domain", "example.org"];
    let mut sinks = SinkPair::new();
    let mut accepted: usize = 0;
    for line in input {
        let domain = match prepare_line(line) {
            Some(d) => d,
            None => continue,
        };
        accepted += 1;
        let mut check = DomainCheck::new(domain);
        while let Some(url) = check.next_url() {
            let outcome = scripted_probe(url.as_str());
            check.report(outcome);
        }
        let verdict = check.into_verdict().expect("every check must decide");
        sinks.record_verdict(&verdict);
    }
    assert_eq!(accepted, 3);
    assert_eq!(sinks.live.line_count() + sinks.dead.line_count(), accepted);
    let mut live: Vec<String> = Vec::new();
    for i in 0..sinks.live.line_count() {
        live.push(sinks.live.line(i).clone());
    }
    live.sort();
    assert_eq!(live, vec![String::from("example.com"), String::from("example.org")]);
    assert_eq!(sinks.dead.line_count(), 1);
    assert_eq!(sinks.dead.line(0).as_str(), "bad..domain");
}
