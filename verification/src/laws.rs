//! What holds of the gateway as a whole, stated over the models that the
//! contracts of its parts use.

use vstd::prelude::*;
use crate::bundle::{contents, keys_unique, lemma_contents_of_entry};
use crate::content_type::spec_resolve;
use crate::gateway::spec_handle;
use crate::path_resolver::{index_key, spec_normalize};
use crate::response::{names_distinct, not_found_message, spec_found, spec_not_found};

verus! {

/// A path made of one slash and something more loses that slash and nothing
/// else.
pub proof fn lemma_normalize_strips_one_slash(rest: Seq<char>)
    requires
        rest.len() > 0,
    ensures
        spec_normalize(seq!['/'] + rest) == rest,
{
    let raw = seq!['/'] + rest;
    assert(raw.subrange(1, raw.len() as int) =~= rest);
}

/// Repeated slashes are not collapsed: of two leading slashes the second
/// stays, as the first character of the key.
pub proof fn lemma_normalize_keeps_second_slash(rest: Seq<char>)
    ensures
        spec_normalize(seq!['/', '/'] + rest) == seq!['/'] + rest,
{
    let raw = seq!['/', '/'] + rest;
    assert(raw.subrange(1, raw.len() as int) =~= seq!['/'] + rest);
}

/// A path that does not begin with a slash is its own key.
pub proof fn lemma_normalize_keeps_relative_path(raw: Seq<char>)
    requires
        raw.len() == 0 || raw[0] != '/',
    ensures
        spec_normalize(raw) == raw,
{
}

/// Every asset of the bundle is served under its key behind one slash: with
/// status 200, its own bytes, and the media type of its key. (The empty key
/// is left out: behind one slash it is the root path, which asks for the
/// index document.)
pub proof fn lemma_known_path_is_served(assets: Map<Seq<char>, Seq<u8>>, key: Seq<char>)
    requires
        assets.contains_key(key),
        key.len() > 0,
    ensures
        spec_handle(assets, seq!['/'] + key) == spec_found(assets[key], spec_resolve(key)),
        spec_handle(assets, seq!['/'] + key).status == 200,
        spec_handle(assets, seq!['/'] + key).body == assets[key],
        spec_handle(assets, seq!['/'] + key).header("Content-Type"@) == Some(spec_resolve(key)),
{
    lemma_normalize_strips_one_slash(key);
    let found = spec_found(assets[key], spec_resolve(key));
    assert(found.headers[0].0 == "Content-Type"@);
}

/// Every file that went into the bundle comes out again: the entry at
/// `index` of the list that the bundle was built from is served under its
/// key behind one slash, byte for byte. (An entry with the empty key is left
/// out, as above.)
pub proof fn lemma_bundled_entry_is_served(entries: Seq<(Seq<char>, Seq<u8>)>, index: int)
    requires
        keys_unique(entries),
        0 <= index < entries.len(),
        entries[index].0.len() > 0,
    ensures
        spec_handle(contents(entries), seq!['/'] + entries[index].0) == spec_found(
            entries[index].1,
            spec_resolve(entries[index].0),
        ),
{
    lemma_contents_of_entry(entries, index);
    lemma_known_path_is_served(contents(entries), entries[index].0);
}

/// The root path and the path of the index document get the same response,
/// whether the bundle holds an index document or not.
pub proof fn lemma_root_is_index(assets: Map<Seq<char>, Seq<u8>>)
    ensures
        spec_normalize("/"@) == index_key(),
        spec_normalize("/index.html"@) == index_key(),
        spec_handle(assets, "/"@) == spec_handle(assets, "/index.html"@),
{
    reveal_strlit("/");
    reveal_strlit("/index.html");
    reveal_strlit("index.html");
    let long = "/index.html"@;
    assert(long.subrange(1, long.len() as int) =~= index_key());
}

/// A path whose key the bundle does not hold gets the one not-found
/// response: status 404, the fixed message, as plain text. The response does
/// not depend on the path, so asking again changes nothing.
pub proof fn lemma_unknown_path_is_not_found(assets: Map<Seq<char>, Seq<u8>>, raw_path: Seq<char>)
    requires
        !assets.contains_key(spec_normalize(raw_path)),
    ensures
        spec_handle(assets, raw_path) == spec_not_found(),
        spec_handle(assets, raw_path).status == 404,
        spec_handle(assets, raw_path).body == vstd::utf8::encode_utf8(not_found_message()),
        spec_handle(assets, raw_path).header("Content-Type"@) == Some("text/plain"@),
{
    assert(spec_not_found().headers[0].0 == "Content-Type"@);
}

/// There are two outcomes and no third: every response is the one that
/// carries the asset under the path's key, or the not-found response.
pub proof fn lemma_found_or_not_found(assets: Map<Seq<char>, Seq<u8>>, raw_path: Seq<char>)
    ensures
        spec_handle(assets, raw_path).status == 200 || spec_handle(assets, raw_path).status == 404,
        spec_handle(assets, raw_path).status == 200 <==> assets.contains_key(
            spec_normalize(raw_path),
        ),
{
}

/// No response names a header twice, so the headers can be read as a
/// mapping from name to value.
pub proof fn lemma_header_names_are_distinct(assets: Map<Seq<char>, Seq<u8>>, raw_path: Seq<char>)
    ensures
        names_distinct(spec_handle(assets, raw_path).headers),
{
    reveal_strlit("Content-Type");
    reveal_strlit("Access-Control-Allow-Origin");
    assert("Content-Type"@.len() != "Access-Control-Allow-Origin"@.len());
}

/// The body of the not-found response, byte by byte: the message is ASCII,
/// so each of its letters is one byte.
pub proof fn lemma_not_found_body()
    ensures
        spec_not_found().body == seq![
            0x41u8, 0x72, 0x63, 0x68, 0x69, 0x76, 0x6f, 0x20, 0x6e, 0x6f, 0x20, 0x65, 0x6e, 0x63,
            0x6f, 0x6e, 0x74, 0x72, 0x61, 0x64, 0x6f,
        ],
{
    reveal_strlit("Archivo no encontrado");
    let message = not_found_message();
    assert(vstd::utf8::is_ascii_chars(message));
    vstd::utf8::is_ascii_chars_encode_utf8(message);
    assert(vstd::utf8::encode_utf8(message) =~= seq![
        0x41u8, 0x72, 0x63, 0x68, 0x69, 0x76, 0x6f, 0x20, 0x6e, 0x6f, 0x20, 0x65, 0x6e, 0x63,
        0x6f, 0x6e, 0x74, 0x72, 0x61, 0x64, 0x6f,
    ]);
}

} // verus!
