//! What a secondary launch forwards to the primary: how its command line
//! arguments are sorted into paths and URLs, and the URL that points the
//! primary at the launcher's own channel.
use vstd::prelude::*;
use crate::text::starts_with;

verus! {

/// The URL schemes that a launch forwards as they are.
pub open spec fn is_url_text(arg: Seq<char>) -> bool {
    "zed://"@.is_prefix_of(arg) || "http://"@.is_prefix_of(arg) || "https://"@.is_prefix_of(arg)
        || "file://"@.is_prefix_of(arg) || "ssh://"@.is_prefix_of(arg)
}

/// Whether `arg` is a URL that the primary opens as it is.
pub fn is_url_argument(arg: &str) -> (r: bool)
    ensures
        r == is_url_text(arg@),
{
    starts_with(arg, "zed://") || starts_with(arg, "http://") || starts_with(arg, "https://")
        || starts_with(arg, "file://") || starts_with(arg, "ssh://")
}

/// How a command line argument is forwarded.
pub enum LaunchArgument {
    /// A path that exists, in its canonical form.
    Path(String),
    /// A URL, as it was given.
    Url(String),
    /// Neither an existing path nor a URL: it is reported and dropped.
    Unusable,
}

/// Sorts one argument, given its canonical form when it names an existing
/// path: an existing path is forwarded as a path, else a URL as a URL.
pub fn classify_argument(arg: &str, canonical: Option<String>) -> (r: LaunchArgument)
    ensures
        canonical matches Some(p) ==> (r matches LaunchArgument::Path(q) && q@ == p@),
        canonical is None && is_url_text(arg@) ==> (r matches LaunchArgument::Url(u) && u@
            == arg@),
        canonical is None && !is_url_text(arg@) ==> r is Unusable,
{
    match canonical {
        Some(path) => LaunchArgument::Path(path),
        None => {
            if is_url_argument(arg) {
                LaunchArgument::Url(String::from_str(arg))
            } else {
                LaunchArgument::Unusable
            }
        },
    }
}

/// The pairs of files to compare, from the canonical forms of the diff
/// arguments taken two by two: a pair is kept when both of its paths exist.
pub open spec fn kept_pairs(canonical: Seq<Option<String>>) -> Seq<(String, String)>
    decreases canonical.len(),
{
    if canonical.len() < 2 {
        Seq::empty()
    } else {
        (match (canonical[0], canonical[1]) {
            (Some(old), Some(new)) => seq![(old, new)],
            _ => Seq::empty(),
        }) + kept_pairs(canonical.subrange(2, canonical.len() as int))
    }
}

/// The pairs of files to compare, in the order of the arguments.
pub fn diff_pairs(canonical: &Vec<Option<String>>) -> (r: Vec<(String, String)>)
    ensures
        r@ == kept_pairs(canonical@),
{
    let mut pairs: Vec<(String, String)> = Vec::new();
    let mut i: usize = 0;
    assert(canonical@.subrange(0, canonical@.len() as int) =~= canonical@);
    while canonical.len() - i >= 2
        invariant
            i <= canonical@.len(),
            pairs@ + kept_pairs(canonical@.subrange(i as int, canonical@.len() as int))
                == kept_pairs(canonical@),
        decreases canonical@.len() - i,
    {
        let ghost rest = canonical@.subrange(i as int, canonical@.len() as int);
        let ghost prev = pairs@;
        assert(rest.subrange(2, rest.len() as int) =~= canonical@.subrange(
            i + 2,
            canonical@.len() as int,
        ));
        match (&canonical[i], &canonical[i + 1]) {
            (Some(old), Some(new)) => {
                pairs.push((old.clone(), new.clone()));
                assert(pairs@ =~= prev + seq![(rest[0]->Some_0, rest[1]->Some_0)]);
            },
            _ => {},
        }
        proof {
            let head = match (rest[0], rest[1]) {
                (Some(old), Some(new)) => seq![(old, new)],
                _ => Seq::<(String, String)>::empty(),
            };
            assert(kept_pairs(rest) == head + kept_pairs(rest.subrange(2, rest.len() as int)));
            assert(pairs@ =~= prev + head);
            assert((prev + head) + kept_pairs(rest.subrange(2, rest.len() as int)) =~= prev + (
            head + kept_pairs(rest.subrange(2, rest.len() as int))));
        }
        i = i + 2;
    }
    proof {
        let rest = canonical@.subrange(i as int, canonical@.len() as int);
        assert(kept_pairs(rest) == Seq::<(String, String)>::empty());
        assert(pairs@ + kept_pairs(rest) =~= pairs@);
    }
    pairs
}

/// The URL that points the primary at the launcher's handshake channel.
pub fn cli_url(server_name: &str) -> (r: String)
    ensures
        r@ == "zed-cli://"@ + server_name@,
{
    let mut url = String::from_str("zed-cli://");
    url.append(server_name);
    url
}

} // verus!
