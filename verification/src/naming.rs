//! Asset names and the reference paths under which clients fetch them.
//!
//! An asset name is a freshly drawn identifier, a dot and the extension of
//! the validated format. Nothing a client sends ever becomes part of it.

use crate::media::{extension_text, ImageKind};
use vstd::prelude::*;
use vstd::string::StringExecFns;

verus! {

/// A decimal digit or one of the letters `a` to `f`.
pub open spec fn is_lower_hex(c: char) -> bool {
    ('0' <= c && c <= '9') || ('a' <= c && c <= 'f')
}

/// The four places at which a hyphenated identifier carries its hyphens.
pub open spec fn is_hyphen_position(i: int) -> bool {
    i == 8 || i == 13 || i == 18 || i == 23
}

/// The shape of an identifier in hyphenated form: 36 characters, hyphens at
/// the four fixed places and lower-case hexadecimal digits everywhere else.
pub open spec fn is_identifier_text(id: Seq<char>) -> bool {
    &&& id.len() == 36
    &&& forall|i: int|
        #![trigger id[i]]
        0 <= i < 36 ==> if is_hyphen_position(i) {
            id[i] == '-'
        } else {
            is_lower_hex(id[i])
        }
}

/// The shape of a random (version 4) identifier: the hyphenated form, with
/// the version digit `4` and a variant digit from `8` to `b`.
pub open spec fn is_random_identifier_text(id: Seq<char>) -> bool {
    &&& is_identifier_text(id)
    &&& id[14] == '4'
    &&& (id[19] == '8' || id[19] == '9' || id[19] == 'a' || id[19] == 'b')
}

/// One identifier of the random shape.
pub open spec fn sample_identifier() -> Seq<char> {
    Seq::new(
        36,
        |i: int|
            if is_hyphen_position(i) {
                '-'
            } else if i == 14 {
                '4'
            } else if i == 19 {
                '8'
            } else {
                '0'
            },
    )
}

/// The random shape is not empty.
pub proof fn lemma_sample_identifier_is_random()
    ensures
        is_random_identifier_text(sample_identifier()),
{
}

/// The name under which an upload of format `kind` is stored, given its
/// identifier.
pub open spec fn asset_name_text(id: Seq<char>, kind: ImageKind) -> Seq<char> {
    id + seq!['.'] + extension_text(kind)
}

/// The directory part of every reference path.
pub open spec fn reference_prefix() -> Seq<char> {
    seq!['/', 'u', 'p', 'l', 'o', 'a', 'd', 's', '/']
}

/// The path that a client is given for the asset stored as `name`.
pub open spec fn reference_text(name: Seq<char>) -> Seq<char> {
    reference_prefix() + name
}

/// `uuid::Uuid::new_v4`, written out by the `Display` impl of `uuid::Uuid`.
/// The identifier is random, so the contract states only the shape that
/// every outcome has: the hyphenated lower-case form of a version 4
/// identifier. That two calls give two identifiers is not stated, and is
/// as likely as the operating system's random bytes make it. The call
/// panics where the operating system has no random bytes to give.
#[verifier::external_body]
fn fresh_identifier() -> (r: String)
    ensures
        is_random_identifier_text(r@),
{
    uuid::Uuid::new_v4().to_string()
}

/// Builds the asset name for a given identifier and format.
pub fn asset_name(id: &str, kind: ImageKind) -> (r: String)
    ensures
        r@ == asset_name_text(id@, kind),
{
    proof {
        reveal_strlit(".");
    }
    assert("."@ =~= seq!['.']);
    let mut name = String::from_str(id);
    name.append(".");
    name.append(kind.extension());
    name
}

/// Draws a fresh identifier and builds an asset name from it.
pub fn new_asset_name(kind: ImageKind) -> (r: String)
    ensures
        exists|id: Seq<char>|
            is_random_identifier_text(id) && r@ == #[trigger] asset_name_text(id, kind),
{
    let id = fresh_identifier();
    asset_name(id.as_str(), kind)
}

/// Builds the reference path of the asset stored as `name`.
pub fn reference_path(name: &str) -> (r: String)
    ensures
        r@ == reference_text(name@),
{
    proof {
        reveal_strlit("/uploads/");
    }
    assert("/uploads/"@ =~= reference_prefix());
    let mut path = String::from_str("/uploads/");
    path.append(name);
    path
}

/// A name that is one plain path component: not empty, not hidden, and
/// free of path separators. Such a name cannot lead out of the directory
/// it is joined to.
pub open spec fn is_plain_name(name: Seq<char>) -> bool {
    &&& name.len() > 0
    &&& name[0] != '.'
    &&& forall|i: int| 0 <= i < name.len() ==> name[i] != '/' && name[i] != '\\'
}

/// An asset name built from a well-shaped identifier is 40 characters long
/// and a plain name: storing under it stays inside the storage root.
pub proof fn lemma_asset_name_is_plain(id: Seq<char>, kind: ImageKind)
    requires
        is_identifier_text(id),
    ensures
        asset_name_text(id, kind).len() == 40,
        is_plain_name(asset_name_text(id, kind)),
{
    let name = asset_name_text(id, kind);
    assert(name[0] == id[0]);
    assert forall|i: int| 0 <= i < name.len() implies name[i] != '/' && name[i] != '\\' by {
        if i < 36 {
            assert(name[i] == id[i]);
        } else if i == 36 {
            assert(name[i] == '.');
        } else {
            assert(name[i] == extension_text(kind)[i - 37]);
        }
    }
}

/// Asset names do not collide: two of them are equal only if they were
/// built from the same identifier, for the same format.
pub proof fn lemma_asset_names_differ(
    id1: Seq<char>,
    kind1: ImageKind,
    id2: Seq<char>,
    kind2: ImageKind,
)
    ensures
        asset_name_text(id1, kind1) == asset_name_text(id2, kind2) <==> id1 == id2 && kind1
            == kind2,
{
    let name1 = asset_name_text(id1, kind1);
    let name2 = asset_name_text(id2, kind2);
    if name1 == name2 {
        assert(id1.len() + 4 == name1.len());
        assert(id2.len() + 4 == name2.len());
        assert(id1 =~= name1.subrange(0, id1.len() as int));
        assert(id2 =~= name2.subrange(0, id2.len() as int));
        let dot = id1.len() as int;
        assert(name1[dot + 1] == extension_text(kind1)[0]);
        assert(name2[dot + 1] == extension_text(kind2)[0]);
    }
}

/// Reference paths do not collide: two of them are equal only if they name
/// the same asset.
pub proof fn lemma_reference_paths_differ(name1: Seq<char>, name2: Seq<char>)
    ensures
        reference_text(name1) == reference_text(name2) <==> name1 == name2,
{
    let path1 = reference_text(name1);
    let path2 = reference_text(name2);
    if path1 == path2 {
        assert(name1 =~= path1.subrange(9, path1.len() as int));
        assert(name2 =~= path2.subrange(9, path2.len() as int));
    }
}

/// The reference path of an asset ends in a dot and the extension of its
/// format, and the three formats end differently.
pub proof fn lemma_reference_ends_in_extension(id: Seq<char>, kind: ImageKind)
    ensures
        ({
            let path = reference_text(asset_name_text(id, kind));
            &&& path.len() == id.len() + 13
            &&& path.subrange(path.len() - 4, path.len() as int) == seq!['.'] + extension_text(kind)
        }),
        forall|other: ImageKind| extension_text(other) == extension_text(kind) ==> other == kind,
{
    let path = reference_text(asset_name_text(id, kind));
    assert(path.subrange(path.len() - 4, path.len() as int) =~= seq!['.'] + extension_text(kind));
    assert forall|other: ImageKind| extension_text(other) == extension_text(kind) implies other
        == kind by {
        assert(extension_text(other)[0] == extension_text(kind)[0]);
    }
}

} // verus!
