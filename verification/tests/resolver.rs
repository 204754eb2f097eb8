use voice_playback::resolver::{
    fast, general, robust, stream, Attempt, Provider, ResolveError, Step, ToolOutcome,
    TrackRequest,
};
use voice_playback::text::{contains, decimal, starts_with, trim, white_space};
use voice_playback::track::{ArgSet, FormatFilter, ResolvedTrack, Stage};

fn ok(output: &str) -> ToolOutcome {
    ToolOutcome { success: true, output: output.to_string(), message: String::new() }
}

fn failed(message: &str) -> ToolOutcome {
    ToolOutcome { success: false, output: String::new(), message: message.to_string() }
}

fn words(list: &[&str]) -> Vec<String> {
    list.iter().map(|s| s.to_string()).collect()
}

#[test]
fn classifies_direct_url() {
    let r = TrackRequest::new("https://a.example/track".to_string());
    assert!(r.is_url());
    assert_eq!(r.provider(), Provider::Direct);
    assert_eq!(r.input(), "https://a.example/track");
    let plain = TrackRequest::new("http://a.example/track".to_string());
    assert!(plain.is_url());
    assert_eq!(plain.provider(), Provider::Direct);
}

#[test]
fn classifies_indirect_url() {
    let r = TrackRequest::new("https://soundcloud.com/artist/song".to_string());
    assert!(r.is_url());
    assert_eq!(r.provider(), Provider::Indirect);
    let sub = TrackRequest::new("http://m.soundcloud.com/x".to_string());
    assert_eq!(sub.provider(), Provider::Indirect);
}

#[test]
fn classifies_free_text_as_search() {
    let r = TrackRequest::new("never gonna give you up".to_string());
    assert!(!r.is_url());
    assert_eq!(r.provider(), Provider::Search);
    let bare = TrackRequest::new("soundcloud.com/artist/song".to_string());
    assert!(!bare.is_url());
    assert_eq!(bare.provider(), Provider::Search);
    let empty = TrackRequest::new(String::new());
    assert_eq!(empty.provider(), Provider::Search);
    let other = TrackRequest::new("ftp://a.example/x".to_string());
    assert_eq!(other.provider(), Provider::Search);
    let upper = TrackRequest::new("HTTP://a.example/x".to_string());
    assert_eq!(upper.provider(), Provider::Search);
}

#[test]
fn direct_url_resolves_with_general_arguments() {
    let r = TrackRequest::new("https://a.example/track".to_string());
    let a = r.first_attempt();
    assert_eq!(
        a,
        Attempt { stage: Stage::Direct, target: "https://a.example/track".to_string(), args: general() }
    );
    let step = r.next_step(a, ok(""));
    assert_eq!(
        step,
        Step::Done(Ok(ResolvedTrack {
            uri: "https://a.example/track".to_string(),
            args: general(),
            path: Stage::Direct,
        }))
    );
}

#[test]
fn direct_url_failure_is_reported() {
    let r = TrackRequest::new("https://a.example/track".to_string());
    let step = r.next_step(r.first_attempt(), failed("gone"));
    assert_eq!(
        step,
        Step::Done(Err(ResolveError { stage: Stage::Direct, message: "gone".to_string() }))
    );
}

#[test]
fn search_uses_query_prefix() {
    let r = TrackRequest::new("some song".to_string());
    let a = r.first_attempt();
    assert_eq!(a.stage, Stage::Search);
    assert_eq!(a.target, "ytsearch:some song");
    assert_eq!(a.args, general());
    let done = r.next_step(a, ok(""));
    assert_eq!(
        done,
        Step::Done(Ok(ResolvedTrack {
            uri: "ytsearch:some song".to_string(),
            args: general(),
            path: Stage::Search,
        }))
    );
    let bad = r.next_step(r.first_attempt(), failed("no results"));
    assert_eq!(
        bad,
        Step::Done(Err(ResolveError { stage: Stage::Search, message: "no results".to_string() }))
    );
}

#[test]
fn fast_path_returns_trimmed_uri() {
    let r = TrackRequest::new("https://soundcloud.com/a/b".to_string());
    let a = r.first_attempt();
    assert_eq!(a.stage, Stage::Fast);
    assert_eq!(a.target, "https://soundcloud.com/a/b");
    assert_eq!(a.args, fast());
    let step = r.next_step(a, ok("  https://cdn.example/stream.mp3\n"));
    assert_eq!(
        step,
        Step::Done(Ok(ResolvedTrack {
            uri: "https://cdn.example/stream.mp3".to_string(),
            args: stream(),
            path: Stage::Fast,
        }))
    );
}

#[test]
fn failed_fast_path_falls_back_once() {
    let r = TrackRequest::new("https://soundcloud.com/a/b".to_string());
    let mut invocations = 0;
    let mut attempt = r.first_attempt();
    let result = loop {
        invocations += 1;
        let outcome = if attempt.stage == Stage::Fast { failed("exit 1") } else { ok("") };
        match r.next_step(attempt, outcome) {
            Step::Invoke(next) => {
                assert_eq!(next.stage, Stage::Robust);
                assert_eq!(next.target, "https://soundcloud.com/a/b");
                assert_eq!(next.args, robust());
                attempt = next;
            }
            Step::Done(result) => break result,
        }
    };
    assert_eq!(invocations, 2);
    assert_eq!(
        result,
        Ok(ResolvedTrack {
            uri: "https://soundcloud.com/a/b".to_string(),
            args: robust(),
            path: Stage::Robust,
        })
    );
}

#[test]
fn failed_robust_path_is_final() {
    let r = TrackRequest::new("https://soundcloud.com/a/b".to_string());
    let next = match r.next_step(r.first_attempt(), failed("exit 1")) {
        Step::Invoke(a) => a,
        Step::Done(_) => panic!("the robust attempt must follow"),
    };
    let step = r.next_step(next, failed("still down"));
    assert_eq!(
        step,
        Step::Done(Err(ResolveError { stage: Stage::Robust, message: "still down".to_string() }))
    );
}

#[test]
fn empty_fast_output_counts_as_failure() {
    let r = TrackRequest::new("https://soundcloud.com/a/b".to_string());
    for output in ["", "\n", " \t\r\n", "\u{a0}\u{2003}"] {
        match r.next_step(r.first_attempt(), ok(output)) {
            Step::Invoke(a) => assert_eq!(a.stage, Stage::Robust),
            Step::Done(_) => panic!("white space is no URI"),
        }
    }
}

#[test]
fn argument_sets_have_their_values() {
    assert_eq!(
        general(),
        ArgSet {
            no_playlist: true,
            format_filter: FormatFilter::BestAudio,
            print_uri: false,
            extractor_variant: true,
            skip_cert_check: true,
            prefer_free_formats: true,
            socket_timeout: Some(30),
            retries: Some(3),
            fragment_retries: None,
            abort_on_unavailable_fragment: false,
        }
    );
    assert_eq!(robust().retries, Some(5));
    assert_eq!(robust().fragment_retries, Some(5));
    assert_eq!(robust().socket_timeout, Some(60));
    assert!(robust().abort_on_unavailable_fragment);
    assert!(robust().skip_cert_check);
    assert!(fast().print_uri);
    assert_eq!(fast().retries, None);
    assert_eq!(stream().format_filter, FormatFilter::Unfiltered);
    assert!(general().retries < robust().retries);
    assert!(general().socket_timeout < robust().socket_timeout);
}

#[test]
fn arguments_are_rendered_in_order() {
    assert_eq!(
        fast().arguments(),
        words(&[
            "--no-playlist",
            "-f",
            "http_mp3_1_0/http_mp3/best[protocol=http]",
            "--get-url",
            "--extractor-args",
            "soundcloud:force_api_v2",
        ])
    );
    assert_eq!(
        stream().arguments(),
        words(&["--no-playlist", "--socket-timeout", "60", "--retries", "5"])
    );
    assert_eq!(
        robust().arguments(),
        words(&[
            "--no-playlist",
            "-f",
            "http_mp3_1_0/http_mp3/best[protocol=http][protocol!~m3u8][protocol!~hls]",
            "--extractor-args",
            "soundcloud:force_api_v2",
            "--no-check-certificates",
            "--socket-timeout",
            "60",
            "--retries",
            "5",
            "--fragment-retries",
            "5",
            "--abort-on-unavailable-fragment",
        ])
    );
    assert_eq!(
        general().arguments(),
        words(&[
            "--no-playlist",
            "-f",
            "http_mp3/best[protocol!=m3u8][protocol!=hls]/bestaudio/best",
            "--extractor-args",
            "soundcloud:force_api_v2",
            "--no-check-certificates",
            "--prefer-free-formats",
            "--socket-timeout",
            "30",
            "--retries",
            "3",
        ])
    );
}

#[test]
fn empty_argument_set_renders_nothing() {
    let none = ArgSet {
        no_playlist: false,
        format_filter: FormatFilter::Unfiltered,
        print_uri: false,
        extractor_variant: false,
        skip_cert_check: false,
        prefer_free_formats: false,
        socket_timeout: None,
        retries: None,
        fragment_retries: None,
        abort_on_unavailable_fragment: false,
    };
    assert_eq!(none.arguments(), Vec::<String>::new());
    assert_eq!(FormatFilter::Unfiltered.expression(), None);
}

#[test]
fn text_helpers_agree_with_std() {
    for (text, pattern) in [
        ("https://x", "https://"),
        ("http", "http://"),
        ("", ""),
        ("abc", ""),
        ("xxsoundcloud.com", "soundcloud.com"),
        ("soundcloud.co", "soundcloud.com"),
        ("aab", "ab"),
        ("héllo wörld", "wör"),
    ] {
        assert_eq!(starts_with(text, pattern), text.starts_with(pattern));
        assert_eq!(contains(text, pattern), text.contains(pattern));
    }
    for text in ["", " ", "  a b  ", "\n\tx\r\n", "x", "\u{3000}y\u{85}", "a\u{200b}"] {
        assert_eq!(trim(text), text.trim());
    }
    for c in ['a', ' ', '\n', '\u{b}', '\u{c}', '\u{1680}', '\u{2000}', '\u{200a}', '\u{200b}', '\u{2028}', '\u{202f}', '\u{205f}', '\u{3000}', '0'] {
        assert_eq!(white_space(c), c.is_whitespace());
    }
}

#[test]
fn decimal_matches_display() {
    for n in [0u64, 1, 9, 10, 11, 99, 100, 12345, 1234567890123, u64::MAX] {
        assert_eq!(decimal(n), n.to_string());
    }
}
