//! The headers that the web server adds to every response so that the game's
//! web export may run in a cross-origin isolated page.
use vstd::prelude::*;

verus! {

/// The names and values of the added headers, in the order they are set.
pub open spec fn cors_header_spec() -> Seq<(Seq<char>, Seq<char>)> {
    seq![
        ("Access-Control-Allow-Origin"@, "*"@),
        ("Cross-Origin-Embedder-Policy"@, "require-corp"@),
        ("Cross-Origin-Opener-Policy"@, "same-origin"@),
    ]
}

/// The headers added to every response: any origin may load the files, and
/// the page is isolated from other origins.
pub fn cors_headers() -> (res: Vec<(&'static str, &'static str)>)
    ensures
        res@.map_values(|header: (&'static str, &'static str)| (header.0@, header.1@))
            == cors_header_spec(),
{
    let res = vec![
        ("Access-Control-Allow-Origin", "*"),
        ("Cross-Origin-Embedder-Policy", "require-corp"),
        ("Cross-Origin-Opener-Policy", "same-origin"),
    ];
    assert(res@.map_values(|header: (&'static str, &'static str)| (header.0@, header.1@))
        =~= cors_header_spec());
    res
}

} // verus!
