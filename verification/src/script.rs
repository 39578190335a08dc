//! What the document's script decides once a browser has loaded the page.
//!
//! The access token travels in the fragment of the redirect URL, which no
//! server ever receives. The script reads it in the browser, and this module
//! states the script's decision over the URL of the loaded page.

use vstd::prelude::*;

use crate::text::{chars_of, contains_subseq, find_char, find_subseq, occurs_at};

verus! {

/// The parameter whose presence in the fragment means that access was granted.
pub const TOKEN_PARAMETER: &'static str = "access_token";

/// The icon of a page that reports success.
pub const SUCCESS_ICON: &'static str = "✅";

/// The icon of a page that reports failure.
pub const FAILURE_ICON: &'static str = "❌";

/// The heading of a page that reports success.
pub const SUCCESS_STATUS: &'static str = "Successfully Connected!";

/// The heading of a page that reports failure.
pub const FAILURE_STATUS: &'static str = "Connection Failed";

/// The message under the heading once the URL is on the clipboard.
pub const COPIED_MESSAGE: &'static str = "Token copied to clipboard!";

/// The message under the heading when the browser refused the clipboard.
pub const COPY_FAILED_MESSAGE: &'static str =
    "Could not copy automatically. Please switch back to Calendarly.";

/// The message under the heading when the fragment holds no token.
pub const NO_TOKEN_MESSAGE: &'static str = "No access token found. Please try again.";

/// What a browser reports as the hash of a location: the URL from its first
/// `#` on, or nothing where the URL has no `#` or ends with it.
pub open spec fn location_hash(url: Seq<char>) -> Seq<char> {
    match url.index_of_first('#') {
        Some(at) => if at + 1 < url.len() {
            url.subrange(at, url.len() as int)
        } else {
            Seq::empty()
        },
        None => Seq::empty(),
    }
}

/// The page was loaded with a fragment that names the token parameter.
pub open spec fn carries_token(url: Seq<char>) -> bool {
    contains_subseq(location_hash(url), TOKEN_PARAMETER@)
}

/// What the page shows when the script has run.
#[derive(Clone, Copy, Debug, PartialEq, Eq, Structural)]
pub enum PageState {
    /// The redirect URL is on the clipboard.
    Connected,
    /// A token came, but the browser refused the clipboard.
    CopyFailed,
    /// No token came.
    Failed,
}

/// The state that a page load ends in, given whether the browser lets the
/// script write to the clipboard.
pub open spec fn state_after_load(url: Seq<char>, clipboard_granted: bool) -> PageState {
    if !carries_token(url) {
        PageState::Failed
    } else if clipboard_granted {
        PageState::Connected
    } else {
        PageState::CopyFailed
    }
}

/// One run of the script.
#[derive(Debug)]
pub struct PageLoad {
    /// The text that the script handed to the clipboard, if it tried to.
    pub clipboard_write: Option<String>,
    /// What the page shows in the end.
    pub state: PageState,
}

/// The visible parts of the page.
#[derive(Clone, Copy, Debug)]
pub struct PageDisplay {
    pub icon: &'static str,
    pub status: &'static str,
    pub message: &'static str,
    /// Whether the request to switch back to the application is shown.
    pub call_to_action_visible: bool,
}

impl PageState {
    /// The script took the branch for a granted token.
    pub open spec fn is_success(self) -> bool {
        self != PageState::Failed
    }

    /// What the page shows in this state.
    pub fn display(self) -> (shown: PageDisplay)
        ensures
            shown.icon@ == (if self.is_success() {
                SUCCESS_ICON@
            } else {
                FAILURE_ICON@
            }),
            shown.status@ == (if self.is_success() {
                SUCCESS_STATUS@
            } else {
                FAILURE_STATUS@
            }),
            shown.message@ == (match self {
                PageState::Connected => COPIED_MESSAGE@,
                PageState::CopyFailed => COPY_FAILED_MESSAGE@,
                PageState::Failed => NO_TOKEN_MESSAGE@,
            }),
            shown.call_to_action_visible == self.is_success(),
    {
        match self {
            PageState::Connected => PageDisplay {
                icon: SUCCESS_ICON,
                status: SUCCESS_STATUS,
                message: COPIED_MESSAGE,
                call_to_action_visible: true,
            },
            PageState::CopyFailed => PageDisplay {
                icon: SUCCESS_ICON,
                status: SUCCESS_STATUS,
                message: COPY_FAILED_MESSAGE,
                call_to_action_visible: true,
            },
            PageState::Failed => PageDisplay {
                icon: FAILURE_ICON,
                status: FAILURE_STATUS,
                message: NO_TOKEN_MESSAGE,
                call_to_action_visible: false,
            },
        }
    }
}

/// The hash of the location `url`, as a browser reports it.
pub fn hash_of(url: &str) -> (hash: &str)
    ensures
        hash@ == location_hash(url@),
{
    proof {
        reveal_strlit("");
    }
    let chars = chars_of(url);
    match find_char(chars.as_slice(), '#') {
        Some(at) => {
            if at + 1 < chars.len() {
                url.substring_char(at, chars.len())
            } else {
                ""
            }
        },
        None => "",
    }
}

/// Whether the fragment of `url` names the token parameter.
pub fn has_access_token(url: &str) -> (found: bool)
    ensures
        found == carries_token(url@),
{
    let hash = chars_of(hash_of(url));
    let parameter = chars_of(TOKEN_PARAMETER);
    find_subseq(hash.as_slice(), parameter.as_slice()).is_some()
}

/// Runs the script for a page loaded at `url`, in a browser that grants or
/// refuses the clipboard. With a token in the fragment the script hands the
/// whole URL to the clipboard; without one it does not touch the clipboard.
pub fn load_page(url: &str, clipboard_granted: bool) -> (outcome: PageLoad)
    ensures
        outcome.state == state_after_load(url@, clipboard_granted),
        carries_token(url@) ==> (outcome.clipboard_write matches Some(text) && text@ == url@),
        !carries_token(url@) ==> outcome.clipboard_write is None,
{
    if has_access_token(url) {
        let state = if clipboard_granted {
            PageState::Connected
        } else {
            PageState::CopyFailed
        };
        PageLoad { clipboard_write: Some(url.to_owned()), state }
    } else {
        PageLoad { clipboard_write: None, state: PageState::Failed }
    }
}

/// The script takes the success branch exactly on a page load that carries a
/// token, and the failure branch exactly on every other: no page load takes
/// both, and none takes neither.
pub proof fn lemma_branches_partition_page_loads(url: Seq<char>, clipboard_granted: bool)
    ensures
        state_after_load(url, clipboard_granted).is_success() <==> carries_token(url),
        state_after_load(url, clipboard_granted) == PageState::Failed <==> !carries_token(url),
{
}

/// A URL without `#` carries no token, whatever else it holds: a token in
/// the path or the query is not one.
pub proof fn lemma_no_fragment_no_token(url: Seq<char>)
    requires
        !url.contains('#'),
    ensures
        location_hash(url) == Seq::<char>::empty(),
        !carries_token(url),
{
    url.index_of_first_ensures('#');
    reveal_strlit("access_token");
    assert forall|at: int| !occurs_at(Seq::<char>::empty(), TOKEN_PARAMETER@, at) by {}
}

/// A URL made of a part without `#`, then `#`, then a fragment that is not
/// empty: its hash is `#` and the fragment, and it carries a token exactly
/// when the fragment names the token parameter.
pub proof fn lemma_fragment_decides(base: Seq<char>, fragment: Seq<char>)
    requires
        !base.contains('#'),
        fragment.len() > 0,
    ensures
        location_hash(base + seq!['#'] + fragment) == seq!['#'] + fragment,
        carries_token(base + seq!['#'] + fragment) <==> contains_subseq(fragment, TOKEN_PARAMETER@),
{
    let url = base + seq!['#'] + fragment;
    let hash = seq!['#'] + fragment;
    url.index_of_first_ensures('#');
    assert(url[base.len() as int] == '#');
    assert forall|j: int| 0 <= j < base.len() implies url[j] != '#' by {
        assert(url[j] == base[j]);
        assert(base.contains(base[j]));
    }
    assert(url.index_of_first('#') == Some(base.len() as int));
    assert(location_hash(url) =~= hash);
    reveal_strlit("access_token");
    let token = TOKEN_PARAMETER@;
    assert(token[0] == 'a');
    if contains_subseq(fragment, token) {
        let at = choose|at: int| occurs_at(fragment, token, at);
        assert(hash.subrange(at + 1, at + 1 + token.len()) =~= fragment.subrange(
            at,
            at + token.len(),
        ));
        assert(occurs_at(hash, token, at + 1));
    }
    if contains_subseq(hash, token) {
        let at = choose|at: int| occurs_at(hash, token, at);
        assert(hash.subrange(at, at + token.len())[0] == 'a');
        assert(at > 0);
        assert(fragment.subrange(at - 1, at - 1 + token.len()) =~= hash.subrange(
            at,
            at + token.len(),
        ));
        assert(occurs_at(fragment, token, at - 1));
    }
}

} // verus!
