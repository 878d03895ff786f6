//! Demo identifiers, file names and file URLs.

use vstd::prelude::*;
use vstd::string::StringExecFns;

verus! {

/// The string `sanitize_filename::sanitize_with_options` returns for a name
/// and the three fields of its options.
pub uninterp spec fn sanitized(
    name: Seq<char>,
    windows: bool,
    truncate: bool,
    replacement: Seq<char>,
) -> Seq<char>;

/// Characters that never survive sanitizing: `/ ? < > \ : * | "` and the
/// control characters U+0000..=U+001F and U+0080..=U+009F.
pub open spec fn is_hostile(c: char) -> bool {
    ||| c == '/'
    ||| c == '?'
    ||| c == '<'
    ||| c == '>'
    ||| c == '\\'
    ||| c == ':'
    ||| c == '*'
    ||| c == '|'
    ||| c == '"'
    ||| (c as u32) <= 0x1f
    ||| 0x80 <= (c as u32) <= 0x9f
}

/// No character of `s` is hostile.
pub open spec fn is_tame(s: Seq<char>) -> bool {
    forall|i: int| 0 <= i < s.len() ==> !is_hostile(#[trigger] s[i])
}

/// Calls `sanitize_filename::sanitize_with_options`.
///
/// Trusted: the result is a function of the name and the options alone, and
/// when matches are replaced by nothing the result holds no hostile
/// character (the crate first deletes every match of its two character
/// classes, and each later step only deletes or truncates).
#[verifier::external_body]
fn sanitize_with(name: &str, windows: bool, truncate: bool, replacement: &str) -> (clean: String)
    ensures
        clean@ == sanitized(name@, windows, truncate, replacement@),
        replacement@.len() == 0 ==> is_tame(clean@),
{
    sanitize_filename::sanitize_with_options(
        name,
        sanitize_filename::Options { windows, truncate, replacement },
    )
}

/// A lower-case hexadecimal digit.
pub open spec fn is_lower_hex(c: char) -> bool {
    ('0' <= c && c <= '9') || ('a' <= c && c <= 'f')
}

/// Whether position `i` of a canonical identifier holds a hyphen.
pub open spec fn is_hyphen_position(i: int) -> bool {
    i == 8 || i == 13 || i == 18 || i == 23
}

/// The canonical text form of a 128-bit identifier: 36 characters, hyphens
/// after the 8th, 12th, 16th and 20th digit, lower-case hexadecimal digits
/// everywhere else.
pub open spec fn is_canonical_id(id: Seq<char>) -> bool {
    &&& id.len() == 36
    &&& forall|i: int|
        0 <= i < 36 ==> if is_hyphen_position(i) {
            #[trigger] id[i] == '-'
        } else {
            is_lower_hex(id[i])
        }
}

/// Calls `uuid::Uuid::new_v4` and renders the identifier with its `Display`.
///
/// Trusted: the text is in canonical hyphenated lower-case form. Nothing is
/// claimed about which identifier comes back.
#[verifier::external_body]
pub(crate) fn random_id() -> (id: String)
    ensures
        is_canonical_id(id@),
{
    uuid::Uuid::new_v4().to_string()
}

/// The title as it appears in a file name: sanitized for any platform's
/// reserved characters, truncated to the sanitizer's limit, matches deleted.
pub open spec fn clean_title(title: Seq<char>) -> Seq<char> {
    sanitized(title, false, true, Seq::empty())
}

/// `<stem>-<demo id>.mp3`
pub open spec fn file_name(stem: Seq<char>, demo_id: Seq<char>) -> Seq<char> {
    stem + "-"@ + demo_id + ".mp3"@
}

/// The name under which an upload with this title and demo identifier is
/// stored.
pub open spec fn stored_name(title: Seq<char>, demo_id: Seq<char>) -> Seq<char> {
    file_name(clean_title(title), demo_id)
}

/// `/audio/<file path>`
pub open spec fn audio_url(file_path: Seq<char>) -> Seq<char> {
    "/audio/"@ + file_path
}

/// Removes from a title what a file name must not hold.
pub fn sanitize_title(title: &str) -> (clean: String)
    ensures
        clean@ == clean_title(title@),
        is_tame(clean@),
{
    proof {
        reveal_strlit("");
        assert(""@ =~= Seq::<char>::empty());
    }
    sanitize_with(title, false, true, "")
}

/// Joins an already sanitized stem and a demo identifier into a file name.
pub fn join_file_name(stem: &str, demo_id: &str) -> (name: String)
    ensures
        name@ == file_name(stem@, demo_id@),
{
    let mut name = String::from_str(stem);
    name.append("-");
    name.append(demo_id);
    name.append(".mp3");
    name
}

/// The file name for an upload: sanitized title, hyphen, demo identifier and
/// the fixed `.mp3` extension. With a canonical demo identifier the name
/// holds no hostile character, so it names a file directly inside the upload
/// directory.
pub fn derive_file_name(title: &str, demo_id: &str) -> (name: String)
    ensures
        name@ == stored_name(title@, demo_id@),
        is_canonical_id(demo_id@) ==> is_tame(name@),
{
    let stem = sanitize_title(title);
    proof {
        if is_canonical_id(demo_id@) {
            lemma_file_name_is_tame(stem@, demo_id@);
        }
    }
    join_file_name(stem.as_str(), demo_id)
}

/// A canonical identifier holds no hostile character.
pub proof fn lemma_canonical_id_is_tame(id: Seq<char>)
    requires
        is_canonical_id(id),
    ensures
        is_tame(id),
{
    assert forall|i: int| 0 <= i < id.len() implies !is_hostile(#[trigger] id[i]) by {
        if is_hyphen_position(i) {
            assert(id[i] == '-');
        } else {
            assert(is_lower_hex(id[i]));
        }
    }
}

/// A file name made of a tame stem and a canonical identifier is tame.
pub proof fn lemma_file_name_is_tame(stem: Seq<char>, demo_id: Seq<char>)
    requires
        is_tame(stem),
        is_canonical_id(demo_id),
    ensures
        is_tame(file_name(stem, demo_id)),
{
    reveal_strlit("-");
    reveal_strlit(".mp3");
    lemma_canonical_id_is_tame(demo_id);
    let name = file_name(stem, demo_id);
    assert forall|i: int| 0 <= i < name.len() implies !is_hostile(#[trigger] name[i]) by {
        if i < stem.len() {
            assert(name[i] == stem[i]);
        } else if i == stem.len() {
            assert(name[i] == "-"@[0]);
        } else if i < stem.len() + 1 + demo_id.len() {
            assert(name[i] == demo_id[i - stem.len() - 1]);
        } else {
            assert(name[i] == ".mp3"@[i - stem.len() - 1 - demo_id.len()]);
        }
    }
}

/// A file name tells its stem and its identifier apart from those of any
/// other name with an identifier of the same length.
pub proof fn lemma_file_name_is_injective(
    stem: Seq<char>,
    demo_id: Seq<char>,
    other_stem: Seq<char>,
    other_id: Seq<char>,
)
    requires
        demo_id.len() == other_id.len(),
        file_name(stem, demo_id) == file_name(other_stem, other_id),
    ensures
        stem == other_stem,
        demo_id == other_id,
{
    reveal_strlit("-");
    reveal_strlit(".mp3");
    let a = file_name(stem, demo_id);
    let b = file_name(other_stem, other_id);
    assert(a.len() == stem.len() + 1 + demo_id.len() + 4);
    assert(b.len() == other_stem.len() + 1 + other_id.len() + 4);
    assert(stem.len() == other_stem.len());
    assert forall|i: int| 0 <= i < stem.len() implies stem[i] == other_stem[i] by {
        assert(a[i] == stem[i]);
        assert(b[i] == other_stem[i]);
    }
    assert(stem =~= other_stem);
    assert forall|i: int| 0 <= i < demo_id.len() implies demo_id[i] == other_id[i] by {
        assert(a[stem.len() + 1 + i] == demo_id[i]);
        assert(b[stem.len() + 1 + i] == other_id[i]);
    }
    assert(demo_id =~= other_id);
}

/// Uploads with different demo identifiers are stored under different
/// names, whatever their titles.
pub proof fn law_distinct_ids_give_distinct_names(
    title: Seq<char>,
    demo_id: Seq<char>,
    other_title: Seq<char>,
    other_id: Seq<char>,
)
    requires
        is_canonical_id(demo_id),
        is_canonical_id(other_id),
        demo_id != other_id,
    ensures
        stored_name(title, demo_id) != stored_name(other_title, other_id),
{
    if stored_name(title, demo_id) == stored_name(other_title, other_id) {
        lemma_file_name_is_injective(
            clean_title(title),
            demo_id,
            clean_title(other_title),
            other_id,
        );
    }
}

/// The URL under which a stored file is served.
pub fn file_url(file_path: &str) -> (url: String)
    ensures
        url@ == audio_url(file_path@),
{
    let mut url = String::from_str("/audio/");
    url.append(file_path);
    url
}

} // verus!
