//! Plain data describing a playable track and the argument set handed to the
//! media-resolution tool.

use vstd::prelude::*;
use vstd::string::*;
use crate::text::{decimal, decimal_digits};

verus! {

/// The resolution path an attempt belongs to.
#[derive(Clone, Copy, Debug, PartialEq, Eq, Structural)]
pub enum Stage {
    /// A URL of the primary provider, resolved with the default argument set.
    Direct,
    /// One invocation of the tool that asks for a ready-to-stream URI.
    Fast,
    /// The general resolver with the extended, failure-tolerant argument set.
    Robust,
    /// A free-text search through the general resolver.
    Search,
}

/// The audio format selection handed to the tool.
#[derive(Clone, Copy, Debug, PartialEq, Eq, Structural)]
pub enum FormatFilter {
    /// No `-f` argument.
    Unfiltered,
    /// Plain HTTP MP3 streams only.
    HttpMp3,
    /// HTTP MP3 streams, never a segmented (HLS / m3u8) protocol.
    HttpMp3Unsegmented,
    /// MP3 if available, else the best audio, never segmented.
    BestAudio,
}

/// The enumerated configuration of one tool invocation.
#[derive(Clone, Copy, Debug, PartialEq, Eq)]
pub struct ArgSet {
    pub no_playlist: bool,
    pub format_filter: FormatFilter,
    /// Ask the tool to print the stream URI instead of streaming.
    pub print_uri: bool,
    /// Force the second API variant of the alternate provider's extractor.
    pub extractor_variant: bool,
    pub skip_cert_check: bool,
    pub prefer_free_formats: bool,
    /// Socket timeout in seconds.
    pub socket_timeout: Option<u32>,
    pub retries: Option<u32>,
    pub fragment_retries: Option<u32>,
    pub abort_on_unavailable_fragment: bool,
}

/// A playable stream descriptor together with the path that produced it.
#[derive(Debug, PartialEq, Eq)]
pub struct ResolvedTrack {
    pub uri: String,
    pub args: ArgSet,
    pub path: Stage,
}

/// The mathematical value of a [`ResolvedTrack`].
pub struct TrackModel {
    pub uri: Seq<char>,
    pub args: ArgSet,
    pub path: Stage,
}

impl View for ResolvedTrack {
    type V = TrackModel;

    open spec fn view(&self) -> TrackModel {
        TrackModel { uri: self.uri@, args: self.args, path: self.path }
    }
}

impl ResolvedTrack {
    /// A copy with the same value.
    pub fn duplicate(&self) -> (r: ResolvedTrack)
        ensures
            r@ == self@,
    {
        ResolvedTrack { uri: self.uri.clone(), args: self.args, path: self.path }
    }
}

impl FormatFilter {
    /// The tool's format expression, if the filter has one.
    pub open spec fn expression_of(self) -> Option<Seq<char>> {
        match self {
            FormatFilter::Unfiltered => None,
            FormatFilter::HttpMp3 => Some("http_mp3_1_0/http_mp3/best[protocol=http]"@),
            FormatFilter::HttpMp3Unsegmented => Some(
                "http_mp3_1_0/http_mp3/best[protocol=http][protocol!~m3u8][protocol!~hls]"@,
            ),
            FormatFilter::BestAudio => Some(
                "http_mp3/best[protocol!=m3u8][protocol!=hls]/bestaudio/best"@,
            ),
        }
    }

    /// The tool's format expression, if the filter has one.
    pub fn expression(&self) -> (e: Option<&'static str>)
        ensures
            e is Some == self.expression_of() is Some,
            e is Some ==> e->0@ == self.expression_of()->0,
    {
        match self {
            FormatFilter::Unfiltered => None,
            FormatFilter::HttpMp3 => Some("http_mp3_1_0/http_mp3/best[protocol=http]"),
            FormatFilter::HttpMp3Unsegmented => Some(
                "http_mp3_1_0/http_mp3/best[protocol=http][protocol!~m3u8][protocol!~hls]",
            ),
            FormatFilter::BestAudio => Some(
                "http_mp3/best[protocol!=m3u8][protocol!=hls]/bestaudio/best",
            ),
        }
    }
}

/// The texts of `words`, in order.
pub open spec fn texts(words: Seq<String>) -> Seq<Seq<char>> {
    Seq::new(words.len(), |i: int| words[i]@)
}

/// `list` with the flag `word` added if `given`.
pub open spec fn with_flag(list: Seq<Seq<char>>, given: bool, word: Seq<char>) -> Seq<Seq<char>> {
    if given {
        list.push(word)
    } else {
        list
    }
}

/// `list` with the option `word` and its `value` added if there is one.
pub open spec fn with_value(list: Seq<Seq<char>>, word: Seq<char>, value: Option<Seq<char>>)
    -> Seq<Seq<char>> {
    match value {
        Some(v) => list.push(word).push(v),
        None => list,
    }
}

/// The decimal text of `n`, if there is one.
pub open spec fn number_text(n: Option<u32>) -> Option<Seq<char>> {
    match n {
        Some(v) => Some(decimal_digits(v as nat)),
        None => None,
    }
}

fn push_flag(list: &mut Vec<String>, given: bool, word: &str)
    ensures
        texts(final(list)@) == with_flag(texts(old(list)@), given, word@),
{
    if given {
        list.push(String::from_str(word));
        proof {
            assert(texts(final(list)@) =~= texts(old(list)@).push(word@));
        }
    }
}

fn push_value(list: &mut Vec<String>, word: &str, value: Option<String>)
    ensures
        texts(final(list)@) == with_value(
            texts(old(list)@),
            word@,
            match value {
                Some(v) => Some(v@),
                None => None,
            },
        ),
{
    match value {
        Some(v) => {
            list.push(String::from_str(word));
            list.push(v);
            proof {
                assert(texts(final(list)@) =~= texts(old(list)@).push(word@).push(v@));
            }
        },
        None => {},
    }
}

fn number(n: Option<u32>) -> (t: Option<String>)
    ensures
        (match t {
            Some(v) => Some(v@),
            None => None,
        }) == number_text(n),
{
    match n {
        Some(v) => Some(decimal(v as u64)),
        None => None,
    }
}

impl ArgSet {
    /// The command-line arguments that the set stands for, in the order in
    /// which the tool is given them.
    pub open spec fn arguments_of(self) -> Seq<Seq<char>> {
        let a = with_flag(Seq::empty(), self.no_playlist, "--no-playlist"@);
        let b = with_value(a, "-f"@, self.format_filter.expression_of());
        let c = with_flag(b, self.print_uri, "--get-url"@);
        let d = with_value(
            c,
            "--extractor-args"@,
            if self.extractor_variant {
                Some("soundcloud:force_api_v2"@)
            } else {
                None
            },
        );
        let e = with_flag(d, self.skip_cert_check, "--no-check-certificates"@);
        let f = with_flag(e, self.prefer_free_formats, "--prefer-free-formats"@);
        let g = with_value(f, "--socket-timeout"@, number_text(self.socket_timeout));
        let h = with_value(g, "--retries"@, number_text(self.retries));
        let i = with_value(h, "--fragment-retries"@, number_text(self.fragment_retries));
        with_flag(i, self.abort_on_unavailable_fragment, "--abort-on-unavailable-fragment"@)
    }

    /// The command-line arguments that the set stands for.
    pub fn arguments(&self) -> (list: Vec<String>)
        ensures
            texts(list@) == self.arguments_of(),
    {
        let mut list: Vec<String> = Vec::new();
        proof {
            assert(texts(list@) =~= Seq::<Seq<char>>::empty());
        }
        push_flag(&mut list, self.no_playlist, "--no-playlist");
        let filter = match self.format_filter.expression() {
            Some(e) => Some(String::from_str(e)),
            None => None,
        };
        push_value(&mut list, "-f", filter);
        push_flag(&mut list, self.print_uri, "--get-url");
        let variant = if self.extractor_variant {
            Some(String::from_str("soundcloud:force_api_v2"))
        } else {
            None
        };
        push_value(&mut list, "--extractor-args", variant);
        push_flag(&mut list, self.skip_cert_check, "--no-check-certificates");
        push_flag(&mut list, self.prefer_free_formats, "--prefer-free-formats");
        push_value(&mut list, "--socket-timeout", number(self.socket_timeout));
        push_value(&mut list, "--retries", number(self.retries));
        push_value(&mut list, "--fragment-retries", number(self.fragment_retries));
        push_flag(
            &mut list,
            self.abort_on_unavailable_fragment,
            "--abort-on-unavailable-fragment",
        );
        list
    }
}

} // verus!
