//! Files and URLs handed to the player by the operating system: which URLs
//! are opened at once and which wait until the event loop is ready.

use vstd::prelude::*;
use url::{ParseError, Url};

verus! {

/// `url::Url`, a parsed URL.
#[verifier::external_type_specification]
#[verifier::external_body]
pub struct ExUrl(Url);

/// `url::ParseError`, why a string is not a URL.
#[verifier::external_type_specification]
#[verifier::external_body]
pub struct ExParseError(ParseError);

/// What `url::Url::parse` gives for a string.
pub uninterp spec fn url_parse_result(input: Seq<char>) -> Result<Url, ParseError>;

/// Parses an absolute URL with `url::Url::parse`. The result depends on the
/// string alone; it is named here, not described.
#[verifier::external_body]
fn parse_url(input: &str) -> (r: Result<Url, ParseError>)
    ensures
        r == url_parse_result(input@),
{
    Url::parse(input)
}

/// `r` is an outcome of `url::Url::from_file_path` for `path` on the platform
/// the player runs on. It is a relation: it claims nothing of other platforms.
pub uninterp spec fn file_url_outcome(path: Seq<char>, r: Result<Url, ()>) -> bool;

/// Converts a file path into a `file:` URL with `url::Url::from_file_path`.
/// The crate refuses a path that is not absolute, which depends on the
/// platform; the result is an outcome of the conversion of exactly this path,
/// and on every platform an empty path is refused.
#[verifier::external_body]
fn url_from_file_path(path: &str) -> (r: Result<Url, ()>)
    ensures
        file_url_outcome(path@, r),
        r is Ok ==> path@.len() > 0,
{
    Url::from_file_path(path)
}

/// The `file:` URL of a path that the operating system asks the player to
/// open, or `Err` when the platform does not take it as an absolute path.
/// Which paths convert depends on the platform; an empty path never does.
pub fn file_path_url(path: &str) -> (r: Result<Url, ()>)
    ensures
        file_url_outcome(path@, r),
        r is Ok ==> path@.len() > 0,
{
    url_from_file_path(path)
}

/// What to do with a URL that the operating system asks the player to open.
#[derive(Debug)]
pub enum OpenAction {
    /// Send an open event for the URL to the event loop.
    Open(Url),
    /// Report that the string is not a URL.
    ReportParseError(ParseError),
}

/// The action for a parsed URL: open it, or report why it did not parse.
pub fn open_action_for(parsed: Result<Url, ParseError>) -> (r: OpenAction)
    ensures
        match parsed {
            Ok(u) => r == OpenAction::Open(u),
            Err(e) => r == OpenAction::ReportParseError(e),
        },
{
    match parsed {
        Ok(u) => OpenAction::Open(u),
        Err(e) => OpenAction::ReportParseError(e),
    }
}

/// The action for a URL string received from the operating system.
pub fn process_url(url_string: &str) -> (r: OpenAction)
    ensures
        match url_parse_result(url_string@) {
            Ok(u) => r == OpenAction::Open(u),
            Err(e) => r == OpenAction::ReportParseError(e),
        },
{
    open_action_for(parse_url(url_string))
}

/// One movie plays at a time: of the URLs or files that the operating
/// system asks the player to open together, only the first is opened.
pub fn first_to_open<T>(items: Vec<T>) -> (r: Option<T>)
    ensures
        items@.len() == 0 ==> r is None,
        items@.len() > 0 ==> r == Some(items@[0]),
{
    let mut items = items;
    if items.len() == 0 {
        None
    } else {
        Some(items.remove(0))
    }
}

/// The URLs among `parsed`, in order.
pub open spec fn parsed_urls(parsed: Seq<Result<Url, ()>>) -> Seq<Url>
    decreases parsed.len(),
{
    if parsed.len() == 0 {
        Seq::empty()
    } else {
        parsed_urls(parsed.drop_last()) + match parsed.last() {
            Ok(u) => seq![u],
            Err(_) => Seq::empty(),
        }
    }
}

/// The paths present among `files`, in order.
pub open spec fn present_paths(files: Seq<Option<String>>) -> Seq<Seq<char>>
    decreases files.len(),
{
    if files.len() == 0 {
        Seq::empty()
    } else {
        present_paths(files.drop_last()) + match files.last() {
            Some(p) => seq![p@],
            None => Seq::empty(),
        }
    }
}

/// `parsed` holds, in order, the outcome of converting each path of `paths`
/// into a `file:` URL, and only a non-empty path converted.
pub open spec fn outcomes_fit(paths: Seq<Seq<char>>, parsed: Seq<Result<Url, ()>>) -> bool {
    &&& parsed.len() == paths.len()
    &&& forall|k: int| 0 <= k < parsed.len() ==> file_url_outcome(paths[k], #[trigger] parsed[k])
    &&& forall|k: int| 0 <= k < parsed.len() && (#[trigger] parsed[k] is Ok) ==> paths[k].len() > 0
}

/// The URLs among `parsed` went where `route_file_urls` sends them: all of
/// them returned when ready, all of them queued otherwise.
pub open spec fn is_routed(
    ready: bool,
    queue_before: Seq<Url>,
    queue_after: Seq<Url>,
    sent: Seq<Url>,
    parsed: Seq<Result<Url, ()>>,
) -> bool {
    if ready {
        sent == parsed_urls(parsed) && queue_after == queue_before
    } else {
        sent.len() == 0 && queue_after == queue_before + parsed_urls(parsed)
    }
}

/// The state of the handler for files opened from the Finder.
pub struct OpenFilesState {
    /// URLs received before the event loop was ready.
    pub queued_urls: Vec<Url>,
    /// The event loop and the preferences are set, so open events can be sent.
    pub ready: bool,
}

impl OpenFilesState {
    /// Routes the results of converting each received path into a URL: when
    /// the event loop is ready every URL is returned, in order, to be sent at
    /// once; otherwise every URL is queued, in order, and none is returned.
    /// Paths that did not convert are dropped.
    pub fn route_file_urls(&mut self, parsed: Vec<Result<Url, ()>>) -> (sent: Vec<Url>)
        ensures
            final(self).ready == old(self).ready,
            old(self).ready ==> sent@ == parsed_urls(parsed@) && final(self).queued_urls@ == old(
                self,
            ).queued_urls@,
            !old(self).ready ==> sent@.len() == 0 && final(self).queued_urls@ == old(
                self,
            ).queued_urls@ + parsed_urls(parsed@),
    {
        let mut sent: Vec<Url> = Vec::new();
        let ghost queued_before = self.queued_urls@;
        let ghost all = parsed@;
        let mut rest = parsed;
        let ghost mut taken: Seq<Result<Url, ()>> = Seq::empty();
        while rest.len() > 0
            invariant
                taken.len() <= all.len(),
                rest@ == all.skip(taken.len() as int),
                taken == all.take(taken.len() as int),
                self.ready == old(self).ready,
                old(self).ready ==> sent@ == parsed_urls(taken) && self.queued_urls@ == queued_before,
                !old(self).ready ==> sent@.len() == 0 && self.queued_urls@ == queued_before
                    + parsed_urls(taken),
            decreases rest.len(),
        {
            let item = rest.remove(0);
            proof {
                assert(item == all[taken.len() as int]);
                assert(rest@ =~= all.skip(taken.len() as int + 1));
                let next = taken.push(item);
                assert(next =~= all.take(taken.len() as int + 1));
                assert(next.drop_last() =~= taken);
                taken = next;
            }
            match item {
                Ok(u) => {
                    if self.ready {
                        sent.push(u);
                    } else {
                        self.queued_urls.push(u);
                    }
                },
                Err(_) => {},
            }
        }
        proof {
            assert(taken =~= all);
        }
        sent
    }

    /// Handles the paths of the files opened from the Finder (`None` for a
    /// missing entry): each present path, in order, is converted into a
    /// `file:` URL, and the outcomes are routed as `route_file_urls` says.
    /// Which paths convert depends on the platform; the outcomes are those of
    /// converting each present path, one per path, in order, and only a
    /// non-empty path converts.
    pub fn handle_open_files(&mut self, files: Vec<Option<String>>) -> (sent: Vec<Url>)
        ensures
            final(self).ready == old(self).ready,
            exists|parsed: Seq<Result<Url, ()>>|
                #[trigger] outcomes_fit(present_paths(files@), parsed) && is_routed(
                    old(self).ready,
                    old(self).queued_urls@,
                    final(self).queued_urls@,
                    sent@,
                    parsed,
                ),
            old(self).ready ==> final(self).queued_urls@ == old(self).queued_urls@,
            !old(self).ready ==> sent@.len() == 0 && final(self).queued_urls@.len() >= old(
                self,
            ).queued_urls@.len() && final(self).queued_urls@.subrange(
                0,
                old(self).queued_urls@.len() as int,
            ) == old(self).queued_urls@,
    {
        let mut parsed: Vec<Result<Url, ()>> = Vec::new();
        let mut i: usize = 0;
        while i < files.len()
            invariant
                i <= files.len(),
                outcomes_fit(present_paths(files@.take(i as int)), parsed@),
            decreases files.len() - i,
        {
            let ghost before = parsed@;
            proof {
                assert(files@.take(i + 1).drop_last() =~= files@.take(i as int));
            }
            match &files[i] {
                Some(path) => {
                    parsed.push(url_from_file_path(path.as_str()));
                    proof {
                        assert(present_paths(files@.take(i + 1)) == present_paths(
                            files@.take(i as int),
                        ).push(path@));
                        assert forall|k: int|
                            0 <= k < parsed@.len() implies file_url_outcome(
                            present_paths(files@.take(i + 1))[k],
                            #[trigger] parsed@[k],
                        ) by {
                            if k < before.len() {
                                assert(parsed@[k] == before[k]);
                            }
                        }
                        assert forall|k: int|
                            0 <= k < parsed@.len() && (#[trigger] parsed@[k] is Ok) implies present_paths(
                            files@.take(i + 1),
                        )[k].len() > 0 by {
                            if k < before.len() {
                                assert(parsed@[k] == before[k]);
                            }
                        }
                    }
                },
                None => {},
            }
            i = i + 1;
        }
        proof {
            assert(files@.take(files@.len() as int) =~= files@);
        }
        let ghost queued_before = self.queued_urls@;
        let ghost outcomes = parsed@;
        let sent = self.route_file_urls(parsed);
        proof {
            if !self.ready {
                assert(self.queued_urls@.subrange(0, queued_before.len() as int) =~= queued_before);
            }
            assert(outcomes_fit(present_paths(files@), outcomes));
            assert(is_routed(old(self).ready, queued_before, self.queued_urls@, sent@, outcomes));
        }
        sent
    }
}

} // verus!
