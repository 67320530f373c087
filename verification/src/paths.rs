//! Paths as a document writes them, and as the platform wants them.
//!
//! A document may come from another platform than the one the store runs on,
//! so the source of a mount point may be written with `\` or with `/`, or with
//! both. Cleaning a path sets the separator of this platform in the place of
//! either, and then has the platform take the path apart and put it together
//! again, which drops what a separator too many leaves behind.
//!
//! How the platform cuts a path, how it joins a part to a path and whether it
//! can write a path as text are its own business. They have a name each here,
//! [`segments_spec`], [`pushed_spec`] and [`text_spec`], and nothing is said of
//! what they give. The contracts say what is handed to the platform, in which
//! order, and what becomes of a document when a source comes back cleaned or
//! does not come back.

use vstd::prelude::*;
use crate::document::{
    mount_points_view, strings_view, Config, ConfigError, ConfigView, MountPoint,
    MountPointView,
};

verus! {

/// Whether a character separates the parts of a path on some platform.
pub open spec fn is_separator(c: char) -> bool {
    c == '\\' || c == '/'
}

/// The pattern that matches one separator of either kind: an escaped `\`, or
/// a `/`.
pub open spec fn separator_pattern() -> Seq<char> {
    seq!['\\', '\\', '|', '/']
}

/// The path with the given separator in the place of every separator of
/// either kind.
pub open spec fn unify_separators_spec(path: Seq<char>, separator: char) -> Seq<char> {
    path.map_values(
        |c: char|
            if is_separator(c) {
                separator
            } else {
                c
            },
    )
}

/// The parts that this platform takes a path apart into, first to last.
pub uninterp spec fn segments_spec(text: Seq<char>) -> Seq<Seq<char>>;

/// The path that this platform makes of a path and one more part.
pub uninterp spec fn pushed_spec(path: Seq<char>, segment: Seq<char>) -> Seq<char>;

/// The path as text, where this platform can write it as text.
pub uninterp spec fn text_spec(path: Seq<char>) -> Option<Seq<char>>;

/// The path that joining the parts gives, one after the other, to the path
/// without parts.
pub open spec fn rejoined_spec(segments: Seq<Seq<char>>) -> Seq<char>
    decreases segments.len(),
{
    if segments.len() == 0 {
        Seq::empty()
    } else {
        pushed_spec(rejoined_spec(segments.drop_last()), segments.last())
    }
}

/// The path in the form of the platform, for a platform that writes the given
/// separator: the separators are unified, and the platform takes the result
/// apart and joins the parts again.
pub open spec fn clean_path_spec(path: Seq<char>, separator: char) -> Seq<char> {
    rejoined_spec(segments_spec(unify_separators_spec(path, separator)))
}

/// The cleaned path as text, where the platform can write it as text.
pub open spec fn clean_source_spec(source: Seq<char>, separator: char) -> Option<Seq<char>> {
    text_spec(clean_path_spec(source, separator))
}

/// `regex::Regex::replace_all` of the compiled pattern on the text, with a
/// replacement of the one character `with`. The pattern is compiled by
/// `regex::Regex::new` on the way in.
///
/// The contract is stated for the separator pattern alone. That pattern
/// compiles, and a match of it is exactly one `\` or one `/`, so that the
/// matches are these characters one by one. `replace_all` copies the text
/// and writes the replacement in the place of each match. A replacement
/// without `$` is written as it stands; one that is `$` and nothing else
/// names no group and is written as it stands too.
#[verifier::external_body]
fn replace_all(pattern: &str, text: &str, with: char) -> (replaced: String)
    requires
        pattern@ == separator_pattern(),
    ensures
        replaced@ == unify_separators_spec(text@, with),
{
    let separator_regex = regex::Regex::new(pattern).unwrap();
    let replacement = String::from(with);
    separator_regex.replace_all(text, replacement.as_str()).into_owned()
}

/// `std::path::MAIN_SEPARATOR`, the separator that this platform writes.
/// Which character it is depends on the platform, so nothing is said of it.
#[verifier::external_body]
fn main_separator() -> char {
    std::path::MAIN_SEPARATOR
}

/// `std::path::Path::iter` on the path that the text stands for: the parts
/// that the platform takes the path apart into, first to last, each as text.
/// The contract gives the parts their name and says nothing of where the
/// platform cuts. A part of a path that was made from text is text itself.
#[verifier::external_body]
fn path_segments(text: &str) -> (segments: Vec<String>)
    ensures
        strings_view(segments@) == segments_spec(text@),
{
    let mut segments: Vec<String> = Vec::new();
    for segment in std::path::Path::new(text).iter() {
        segments.push(segment.to_string_lossy().into_owned());
    }
    segments
}

/// `std::path::PathBuf::push` of one part on the path that the text stands
/// for, and the text of the path that results. The contract gives the result
/// its name and says nothing of how the platform joins. A path that was made
/// from text and a part that is text give a path that is text.
#[verifier::external_body]
fn push_segment(path: &str, segment: &str) -> (pushed: String)
    ensures
        pushed@ == pushed_spec(path@, segment@),
{
    let mut native = std::path::PathBuf::from(path);
    native.push(segment);
    native.to_string_lossy().into_owned()
}

/// `std::path::Path::to_str` on the path that the text stands for: the path
/// as text, where the platform can write it as text. The contract gives the
/// result its name and says nothing of when there is one.
#[verifier::external_body]
fn path_text(path: &str) -> (text: Option<String>)
    ensures
        text matches Some(written) ==> text_spec(path@) == Some(written@),
        text is None ==> text_spec(path@) is None,
{
    match std::path::Path::new(path).to_str() {
        Some(written) => Some(written.to_owned()),
        None => None,
    }
}

/// The path with `separator` in the place of every `\` and every `/`.
pub fn unify_separators(path_string: &str, separator: char) -> (unified: String)
    ensures
        unified@ == unify_separators_spec(path_string@, separator),
{
    let pattern = "\\\\|/";
    proof {
        reveal_strlit("\\\\|/");
        assert(pattern@ =~= separator_pattern());
    }
    replace_all(pattern, path_string, separator)
}

/// The path in the form of the platform, written with the given separator:
/// the separators are unified, the platform takes the result apart, and the
/// parts are joined again, first to last, beginning with the path without
/// parts.
pub fn clean_path_text(path_string: &str, separator: char) -> (native: String)
    ensures
        native@ == clean_path_spec(path_string@, separator),
{
    let unified = unify_separators(path_string, separator);
    let segments = path_segments(unified.as_str());
    let mut native = String::new();
    let mut i: usize = 0;
    assert(strings_view(segments@).take(0) =~= Seq::<Seq<char>>::empty());
    while i < segments.len()
        invariant
            i <= segments.len(),
            native@ == rejoined_spec(strings_view(segments@).take(i as int)),
        decreases segments.len() - i,
    {
        native = push_segment(native.as_str(), segments[i].as_str());
        assert(strings_view(segments@).take(i + 1).drop_last() =~= strings_view(
            segments@,
        ).take(i as int));
        i += 1;
    }
    assert(strings_view(segments@).take(segments.len() as int) =~= strings_view(segments@));
    native
}

/// The path in the form of this platform: its separators are set to the
/// platform's, and the platform then takes it apart and joins it again.
pub fn clean_path_string(path_string: &str) -> (native: String)
    ensures
        exists|separator: char| native@ == #[trigger] clean_path_spec(path_string@, separator),
{
    let correct_separator = main_separator();
    clean_path_text(path_string, correct_separator)
}

/// The source of a mount point in the form of the platform, written with the
/// given separator, where the platform can write it as text.
pub fn clean_source_text(source: &str, separator: char) -> (cleaned: Option<String>)
    ensures
        cleaned matches Some(written) ==> clean_source_spec(source@, separator) == Some(
            written@,
        ),
        cleaned is None ==> clean_source_spec(source@, separator) is None,
{
    let native = clean_path_text(source, separator);
    path_text(native.as_str())
}

/// Whether what came back is what cleaning the source gives on a platform that
/// writes the given separator.
pub open spec fn is_cleaned_source(
    cleaned: Option<String>,
    source: Seq<char>,
    separator: char,
) -> bool {
    match cleaned {
        Some(written) => clean_source_spec(source, separator) == Some(written@),
        None => clean_source_spec(source, separator) is None,
    }
}

/// The source of a mount point in the form of this platform, where it has
/// one that can be written as text.
pub fn clean_source(source: &str) -> (cleaned: Option<String>)
    ensures
        exists|separator: char| #[trigger] is_cleaned_source(cleaned, source@, separator),
{
    let correct_separator = main_separator();
    let cleaned = clean_source_text(source, correct_separator);
    assert(is_cleaned_source(cleaned, source@, correct_separator));
    cleaned
}

/// Whether the source of the mount point has a cleaned form that can be
/// written as text.
pub open spec fn has_clean_source(mount_point: MountPointView, separator: char) -> bool {
    clean_source_spec(mount_point.source, separator) is Some
}

/// The mount point with its source cleaned.
pub open spec fn cleaned_mount_point_spec(
    mount_point: MountPointView,
    separator: char,
) -> MountPointView {
    MountPointView {
        source: clean_source_spec(mount_point.source, separator)->Some_0,
        name: mount_point.name,
    }
}

/// Whether the mount point at `i`, or one before it, has no cleaned source.
pub open spec fn refused_upto(list: Seq<MountPointView>, separator: char, i: int) -> bool {
    exists|j: int| 0 <= j <= i && j < list.len() && !#[trigger] has_clean_source(list[j], separator)
}

/// Whether every mount point of the list has a cleaned source.
pub open spec fn all_have_clean_sources(list: Seq<MountPointView>, separator: char) -> bool {
    forall|j: int| 0 <= j < list.len() ==> #[trigger] has_clean_source(list[j], separator)
}

/// The list as cleaning leaves it: the mount points before the first that has
/// no cleaned source have theirs, and that one and all behind it are as they
/// were. Where every mount point has a cleaned source, every one has its own.
pub open spec fn cleaned_mount_points_spec(
    list: Seq<MountPointView>,
    separator: char,
) -> Seq<MountPointView> {
    Seq::new(
        list.len(),
        |i: int|
            if refused_upto(list, separator, i) {
                list[i]
            } else {
                cleaned_mount_point_spec(list[i], separator)
            },
    )
}

/// Whether cleaning the document succeeds: it has no mount points, or each of
/// them has a cleaned source.
pub open spec fn is_cleanable(document: ConfigView, separator: char) -> bool {
    match document.mount_dirs {
        Some(list) => all_have_clean_sources(list, separator),
        None => true,
    }
}

/// The document as cleaning leaves it: nothing but the sources of the mount
/// points is touched.
pub open spec fn cleaned_document_spec(document: ConfigView, separator: char) -> ConfigView {
    ConfigView {
        mount_dirs: match document.mount_dirs {
            Some(list) => Some(cleaned_mount_points_spec(list, separator)),
            None => None,
        },
        ..document
    }
}

/// Whether the outcome and the document are what cleaning makes of the
/// document `before`, on a platform that writes the given separator.
pub open spec fn is_cleaning_of(
    outcome: Result<(), ConfigError>,
    after: ConfigView,
    before: ConfigView,
    separator: char,
) -> bool {
    &&& after == cleaned_document_spec(before, separator)
    &&& outcome is Ok <==> is_cleanable(before, separator)
    &&& outcome is Err ==> outcome == Err::<(), ConfigError>(ConfigError::InvalidPath)
}

impl MountPoint {
    /// Takes what cleaning made of the source: a cleaned source takes the
    /// place of the old one, and without one the mount point is turned away as
    /// it is.
    pub fn take_cleaned_source(&mut self, cleaned: Option<String>) -> (outcome: Result<
        (),
        ConfigError,
    >)
        ensures
            cleaned matches Some(source) ==> outcome is Ok && final(self)@ == (MountPointView {
                source: source@,
                name: old(self)@.name,
            }),
            cleaned is None ==> outcome == Err::<(), ConfigError>(ConfigError::InvalidPath)
                && *final(self) == *old(self),
    {
        match cleaned {
            Some(source) => {
                self.source = source;
                Ok(())
            },
            None => Err(ConfigError::InvalidPath),
        }
    }
}

impl Config {
    /// Cleans the source of every mount point for a platform that writes the
    /// given separator, first to last, and gives up with `InvalidPath` at the
    /// first that has no cleaned form: that mount point and those behind it
    /// are then as they were. Nothing but the sources changes.
    pub fn clean_paths_with(&mut self, separator: char) -> (outcome: Result<(), ConfigError>)
        ensures
            is_cleaning_of(outcome, final(self)@, old(self)@, separator),
            final(self).album_art_pattern == old(self).album_art_pattern,
            final(self).reindex_every_n_seconds == old(self).reindex_every_n_seconds,
            final(self).users == old(self).users,
            final(self).ydns == old(self).ydns,
            old(self).mount_dirs is None ==> *final(self) == *old(self),
            old(self).mount_dirs matches Some(before) ==> before@.len() == 0 ==> *final(self)
                == *old(self),
    {
        if let Some(mut mount_dirs) = self.mount_dirs.take() {
            let ghost before = mount_points_view(mount_dirs@);
            let mut i: usize = 0;
            while i < mount_dirs.len()
                invariant
                    i <= mount_dirs.len(),
                    self.album_art_pattern == old(self).album_art_pattern,
                    self.reindex_every_n_seconds == old(self).reindex_every_n_seconds,
                    self.users == old(self).users,
                    self.ydns == old(self).ydns,
                    old(self).mount_dirs is Some,
                    mount_points_view(old(self).mount_dirs->Some_0@) == before,
                    mount_dirs@.len() == before.len(),
                    i == 0 ==> mount_dirs == old(self).mount_dirs->Some_0,
                    forall|j: int|
                        0 <= j < i ==> #[trigger] has_clean_source(before[j], separator)
                            && mount_dirs@[j]@ == cleaned_mount_point_spec(before[j], separator),
                    forall|j: int| i <= j < before.len() ==> (#[trigger] mount_dirs@[j])@ == before[j],
                decreases mount_dirs.len() - i,
            {
                let ghost so_far = mount_dirs@;
                assert(so_far[i as int]@ == before[i as int]);
                let cleaned = clean_source_text(mount_dirs[i].source.as_str(), separator);
                let outcome = mount_dirs[i].take_cleaned_source(cleaned);
                assert(forall|j: int|
                    0 <= j < so_far.len() && j != i ==> mount_dirs@[j] == #[trigger] so_far[j]);
                if outcome.is_err() {
                    self.mount_dirs = Some(mount_dirs);
                    proof {
                        let after = mount_points_view(mount_dirs@);
                        assert(!has_clean_source(before[i as int], separator));
                        assert forall|j: int| 0 <= j < before.len() implies after[j]
                            == cleaned_mount_points_spec(before, separator)[j] by {
                            assert(after[j] == mount_dirs@[j]@);
                            if j < i {
                                assert(has_clean_source(before[j], separator));
                                assert(!refused_upto(before, separator, j));
                            } else {
                                assert(refused_upto(before, separator, j));
                            }
                        }
                        assert(after =~= cleaned_mount_points_spec(before, separator));
                    }
                    return outcome;
                }
                assert(has_clean_source(before[i as int], separator));
                assert(mount_dirs@[i as int]@ == cleaned_mount_point_spec(
                    before[i as int],
                    separator,
                ));
                i += 1;
            }
            self.mount_dirs = Some(mount_dirs);
            proof {
                let after = mount_points_view(mount_dirs@);
                assert forall|j: int| 0 <= j < before.len() implies after[j]
                    == cleaned_mount_points_spec(before, separator)[j] by {
                    assert(after[j] == mount_dirs@[j]@);
                    assert(has_clean_source(before[j], separator));
                    assert(!refused_upto(before, separator, j));
                }
                assert(after =~= cleaned_mount_points_spec(before, separator));
            }
        }
        Ok(())
    }

    /// Cleans the source of every mount point for this platform, first to
    /// last, and gives up with `InvalidPath` at the first that has no cleaned
    /// form. Nothing but the sources changes. A document without mount points
    /// is in order as it stands.
    pub fn clean_paths(&mut self) -> (outcome: Result<(), ConfigError>)
        ensures
            exists|separator: char| #[trigger]
                is_cleaning_of(outcome, final(self)@, old(self)@, separator),
            final(self).album_art_pattern == old(self).album_art_pattern,
            final(self).reindex_every_n_seconds == old(self).reindex_every_n_seconds,
            final(self).users == old(self).users,
            final(self).ydns == old(self).ydns,
            old(self).mount_dirs is None ==> outcome is Ok && *final(self) == *old(self),
            old(self).mount_dirs matches Some(before) ==> before@.len() == 0 ==> outcome is Ok
                && *final(self) == *old(self),
    {
        let correct_separator = main_separator();
        let outcome = self.clean_paths_with(correct_separator);
        assert(is_cleaning_of(outcome, self@, old(self)@, correct_separator));
        outcome
    }
}

/// Unifying the separators of a path a second time changes nothing.
pub proof fn lemma_unify_separators_twice(path: Seq<char>, separator: char)
    ensures
        unify_separators_spec(unify_separators_spec(path, separator), separator)
            == unify_separators_spec(path, separator),
{
    assert(unify_separators_spec(unify_separators_spec(path, separator), separator)
        =~= unify_separators_spec(path, separator));
}

/// A path whose separators are all the given one stays as it is.
pub proof fn lemma_unify_separators_of_native(path: Seq<char>, separator: char)
    requires
        forall|i: int| 0 <= i < path.len() && is_separator(#[trigger] path[i]) ==> path[i] == separator,
    ensures
        unify_separators_spec(path, separator) == path,
{
    assert(unify_separators_spec(path, separator) =~= path);
}

/// Two paths that differ only in which of the two separators stands where
/// become the same path.
pub proof fn lemma_unify_separators_of_either(
    one: Seq<char>,
    other: Seq<char>,
    separator: char,
)
    requires
        one.len() == other.len(),
        forall|i: int|
            0 <= i < one.len() ==> #[trigger] one[i] == other[i] || (is_separator(one[i])
                && is_separator(other[i])),
    ensures
        unify_separators_spec(one, separator) == unify_separators_spec(other, separator),
{
    assert(unify_separators_spec(one, separator) =~= unify_separators_spec(other, separator));
}

/// Two paths that differ only in which of the two separators stands where
/// clean to the same path, and to the same text or to none.
pub proof fn lemma_clean_path_of_either(one: Seq<char>, other: Seq<char>, separator: char)
    requires
        one.len() == other.len(),
        forall|i: int|
            0 <= i < one.len() ==> #[trigger] one[i] == other[i] || (is_separator(one[i])
                && is_separator(other[i])),
    ensures
        clean_path_spec(one, separator) == clean_path_spec(other, separator),
        clean_source_spec(one, separator) == clean_source_spec(other, separator),
{
    lemma_unify_separators_of_either(one, other, separator);
}

/// A path whose separators are unified already cleans to what the path it was
/// made from cleans to.
pub proof fn lemma_clean_path_of_unified(path: Seq<char>, separator: char)
    ensures
        clean_path_spec(unify_separators_spec(path, separator), separator) == clean_path_spec(
            path,
            separator,
        ),
{
    lemma_unify_separators_twice(path, separator);
}

/// Where every mount point of a list has a cleaned source, cleaning leaves
/// none of them with the source it came with: each has its cleaned one and
/// its own name, in the order of the list.
pub proof fn lemma_cleaned_where_all_clean(list: Seq<MountPointView>, separator: char)
    requires
        all_have_clean_sources(list, separator),
    ensures
        cleaned_mount_points_spec(list, separator) == list.map_values(
            |mount_point: MountPointView| cleaned_mount_point_spec(mount_point, separator),
        ),
{
    assert forall|i: int| 0 <= i < list.len() implies !refused_upto(list, separator, i) by {
        assert forall|j: int| 0 <= j <= i && j < list.len() implies has_clean_source(
            list[j],
            separator,
        ) by {}
    }
    assert(cleaned_mount_points_spec(list, separator) =~= list.map_values(
        |mount_point: MountPointView| cleaned_mount_point_spec(mount_point, separator),
    ));
}

/// One mount point without a cleaned source, wherever it stands in the list,
/// is enough for the document to be turned away.
pub proof fn lemma_one_refusal_rejects(document: ConfigView, separator: char, i: int)
    requires
        document.mount_dirs matches Some(list) && 0 <= i < list.len() && clean_source_spec(
            list[i].source,
            separator,
        ) is None,
    ensures
        !is_cleanable(document, separator),
{
    assert(!has_clean_source(document.mount_dirs->Some_0[i], separator));
}

/// Whether the outcome is what taking a parsed document in gives, on a
/// platform that writes the given separator: the cleaned document where every
/// source has a cleaned form, and `InvalidPath` without any document where one
/// has none.
pub open spec fn is_acceptance_of(
    outcome: Result<Config, ConfigError>,
    document: ConfigView,
    separator: char,
) -> bool {
    if is_cleanable(document, separator) {
        outcome matches Ok(cleaned) && cleaned@ == cleaned_document_spec(document, separator)
    } else {
        outcome == Err::<Config, ConfigError>(ConfigError::InvalidPath)
    }
}

/// Takes in what a parser of one of the document's formats made of a text.
/// Where the parser failed, its message is passed on as a `ParseError`. Where
/// it gave a document, the paths of the document are cleaned, and the document
/// is handed out only if all of them could be: after an `InvalidPath` there is
/// no document, cleaned in part or not at all.
pub fn accept_parsed(parsed: Result<Config, String>) -> (outcome: Result<Config, ConfigError>)
    ensures
        parsed matches Err(message) ==> outcome == Err::<Config, ConfigError>(
            ConfigError::ParseError(message),
        ),
        parsed matches Ok(document) ==> {
            &&& exists|separator: char| #[trigger] is_acceptance_of(outcome, document@, separator)
            &&& document.mount_dirs is None ==> outcome == Ok::<Config, ConfigError>(document)
            &&& document.mount_dirs matches Some(list) ==> list@.len() == 0 ==> outcome
                == Ok::<Config, ConfigError>(document)
            &&& outcome matches Ok(cleaned) ==> {
                &&& cleaned.album_art_pattern == document.album_art_pattern
                &&& cleaned.reindex_every_n_seconds == document.reindex_every_n_seconds
                &&& cleaned.users == document.users
                &&& cleaned.ydns == document.ydns
            }
        },
{
    match parsed {
        Ok(mut document) => {
            let ghost before = document@;
            let correct_separator = main_separator();
            match document.clean_paths_with(correct_separator) {
                Ok(()) => {
                    assert(is_acceptance_of(
                        Ok::<Config, ConfigError>(document),
                        before,
                        correct_separator,
                    ));
                    Ok(document)
                },
                Err(refusal) => {
                    assert(is_acceptance_of(
                        Err::<Config, ConfigError>(refusal),
                        before,
                        correct_separator,
                    ));
                    Err(refusal)
                },
            }
        },
        Err(message) => Err(ConfigError::ParseError(message)),
    }
}

} // verus!
