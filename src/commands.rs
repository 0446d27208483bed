use vstd::prelude::*;
use vstd::string::{StrSliceExecFns, StringExecFns};
use crate::paths::{matching, names_view, search};

verus! {

/// A chat command, as parsed from an incoming message.
#[derive(Debug)]
pub enum Request {
    /// Show the list of commands.
    Help,
    /// Send a picture whose name matches the term.
    Pic(String),
    /// Send a picture picked from all of them.
    Random,
    /// List the pictures whose names match the term.
    Search(String),
}

/// What to answer a command with.
#[derive(Debug)]
pub enum Reply {
    /// The list of commands.
    Help,
    /// A plain text reply.
    Text(String),
    /// One picture picked at random from these candidates.
    Picture(Vec<String>),
    /// A list of these matching names, with links.
    Listing(Vec<String>),
}

/// A term with each space turned into an underscore, as file names have them.
pub open spec fn underscored(s: Seq<char>) -> Seq<char> {
    s.map_values(|c: char| if c == ' ' { '_' } else { c })
}

/// A term with each space turned into an underscore.
fn replace_spaces(s: &str) -> (r: String)
    ensures
        r@ == underscored(s@),
{
    let n = s.unicode_len();
    let mut r = String::new();
    let mut i: usize = 0;
    while i < n
        invariant
            n == s@.len(),
            i <= n,
            r@ == underscored(s@.subrange(0, i as int)),
        decreases n - i,
    {
        let c = s.get_char(i);
        let ghost before = r@;
        if c == ' ' {
            proof {
                reveal_strlit("_");
            }
            r.append("_");
            assert(r@ =~= before + seq!['_']);
            assert(underscored(s@.subrange(i as int, i + 1)) =~= seq!['_']);
        } else {
            let one = s.substring_char(i, i + 1);
            r.append(one);
            assert(r@ =~= before + one@);
            assert(underscored(s@.subrange(i as int, i + 1)) =~= one@);
        }
        assert(r@ =~= before + underscored(s@.subrange(i as int, i + 1)));
        assert(underscored(s@.subrange(0, i + 1)) =~= underscored(s@.subrange(0, i as int))
            + underscored(s@.subrange(i as int, i + 1)));
        i = i + 1;
    }
    assert(s@.subrange(0, n as int) =~= s@);
    r
}

/// The reply to a request for a picture that gave no term.
pub open spec fn no_query_text() -> Seq<char> {
    "No search query passed"@
}

/// `prefix`, the term in single quotes.
pub open spec fn quoted_after(prefix: Seq<char>, term: Seq<char>) -> Seq<char> {
    prefix + seq!['\''] + term + seq!['\'']
}

/// The reply to a picture request that matched nothing.
pub open spec fn no_picture_text(term: Seq<char>) -> Seq<char> {
    quoted_after("No picture found for "@, term)
}

/// The reply to a search that matched nothing.
pub open spec fn no_results_text(term: Seq<char>) -> Seq<char> {
    quoted_after("No results found for "@, term)
}

/// The answer to `request`, over the names in `files`.
pub open spec fn reply_for(files: Seq<Seq<char>>, request: Request) -> ReplyView {
    match request {
        Request::Help => ReplyView::Help,
        Request::Pic(term) => if term@.len() == 0 {
            ReplyView::Text(no_query_text())
        } else if matching(files, underscored(term@)).len() == 0 {
            ReplyView::Text(no_picture_text(term@))
        } else {
            ReplyView::Picture(matching(files, underscored(term@)))
        },
        Request::Random => ReplyView::Picture(files),
        Request::Search(term) => if matching(files, term@).len() == 0 {
            ReplyView::Text(no_results_text(term@))
        } else {
            ReplyView::Listing(matching(files, term@))
        },
    }
}

/// A reply with its strings seen as character sequences.
pub enum ReplyView {
    Help,
    Text(Seq<char>),
    Picture(Seq<Seq<char>>),
    Listing(Seq<Seq<char>>),
}

impl View for Reply {
    type V = ReplyView;

    open spec fn view(&self) -> ReplyView {
        match self {
            Reply::Help => ReplyView::Help,
            Reply::Text(t) => ReplyView::Text(t@),
            Reply::Picture(c) => ReplyView::Picture(names_view(c@)),
            Reply::Listing(c) => ReplyView::Listing(names_view(c@)),
        }
    }
}

/// `prefix`, then `term` in single quotes.
fn quoted(prefix: &str, term: &str) -> (r: String)
    ensures
        r@ == quoted_after(prefix@, term@),
{
    let mut r = prefix.to_owned();
    proof {
        reveal_strlit("'");
    }
    r.append("'");
    r.append(term);
    r.append("'");
    r
}

/// Decides the answer to a chat command over the indexed names in `files`.
/// A picture request searches with spaces read as underscores; a search
/// uses the term as given.
pub fn respond(files: &Vec<String>, request: &Request) -> (r: Reply)
    ensures
        r@ == reply_for(names_view(files@), *request),
{
    match request {
        Request::Help => Reply::Help,
        Request::Pic(term) => {
            if term.as_str().is_empty() {
                Reply::Text("No search query passed".to_owned())
            } else {
                let wanted = replace_spaces(term.as_str());
                let results = search(files, wanted.as_str());
                if results.len() == 0 {
                    Reply::Text(quoted("No picture found for ", term.as_str()))
                } else {
                    Reply::Picture(results)
                }
            }
        },
        Request::Random => Reply::Picture(files.clone()),
        Request::Search(term) => {
            let results = search(files, term.as_str());
            if results.len() == 0 {
                Reply::Text(quoted("No results found for ", term.as_str()))
            } else {
                Reply::Listing(results)
            }
        },
    }
}

} // verus!
