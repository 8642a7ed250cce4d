use vstd::prelude::*;
use vstd::string::*;

use crate::post::{append_decimal, decimal};

verus! {

/// Host of the JSON API.
pub open spec fn api_host() -> Seq<char> {
    "https://a.4cdn.org/"@
}

/// Path of the board list.
pub open spec fn spec_boards_url() -> Seq<char> {
    api_host() + "boards.json"@
}

/// Path of a board's catalog.
pub open spec fn spec_catalog_url(board: Seq<char>) -> Seq<char> {
    api_host() + board + "/catalog.json"@
}

/// Path of a full thread.
pub open spec fn spec_thread_url(board: Seq<char>, no: u32) -> Seq<char> {
    api_host() + board + "/thread/"@ + decimal(no as nat)
}

/// Where the board list is fetched from.
pub fn boards_url() -> (r: String)
    ensures
        r@ == spec_boards_url(),
{
    let mut s = String::from_str("https://a.4cdn.org/");
    s.append("boards.json");
    s
}

/// Where a board's catalog is fetched from.
pub fn catalog_url(board: &str) -> (r: String)
    ensures
        r@ == spec_catalog_url(board@),
{
    let mut s = String::from_str("https://a.4cdn.org/");
    s.append(board);
    s.append("/catalog.json");
    assert(s@ =~= spec_catalog_url(board@));
    s
}

/// Where a full thread is fetched from.
pub fn thread_url(board: &str, no: u32) -> (r: String)
    ensures
        r@ == spec_thread_url(board@, no),
{
    let mut s = String::from_str("https://a.4cdn.org/");
    s.append(board);
    s.append("/thread/");
    append_decimal(&mut s, no as u64);
    assert(s@ =~= spec_thread_url(board@, no));
    s
}

} // verus!
