//! Load order of the MPQ archives of a game installation.
//!
//! Archives are recognised by their file name alone; the order decides which archive wins
//! when several of them hold the same file (earlier archives take priority).
use crate::text::{
    char_count, contains_str, count_char, has_infix, has_prefix, lemma_char_count_absent,
    lemma_char_count_concat, lemma_infix_behind_prefix, starts_with, str_eq, breaks_off,
};
use itertools::Itertools;
use std::cmp::Ordering;
use vstd::prelude::*;
use vstd::string::{StrSliceExecFns, StringSliceAdditionalSpecFns};
use vstd::utf8::{encode_utf8, is_char_boundary};

verus! {

/// The kinds of archives. The order of the variants is the load order of the kinds.
#[derive(Debug, Clone, Copy, PartialEq, Eq, Structural)]
pub enum MPQType {
    Base,
    Alternate,
    Patch,
    PatchLocalized,
    Tbc,
    Wotlk,
    Common,
    Locale,
    Speech,
    TbcLocale,
    WotlkLocale,
    TbcSpeech,
    WotlkSpeech,
    Unknown,
}

/// Position of a kind in the load order.
pub open spec fn type_rank(t: MPQType) -> int {
    match t {
        MPQType::Base => 0,
        MPQType::Alternate => 1,
        MPQType::Patch => 2,
        MPQType::PatchLocalized => 3,
        MPQType::Tbc => 4,
        MPQType::Wotlk => 5,
        MPQType::Common => 6,
        MPQType::Locale => 7,
        MPQType::Speech => 8,
        MPQType::TbcLocale => 9,
        MPQType::WotlkLocale => 10,
        MPQType::TbcSpeech => 11,
        MPQType::WotlkSpeech => 12,
        MPQType::Unknown => 13,
    }
}

/// The kind of an expansion archive, read from the number of dashes in its name.
pub open spec fn type_from_dashes(name: Seq<char>, dashes: nat) -> MPQType {
    if dashes == 2 {
        if has_infix(name, "speech"@) {
            MPQType::TbcSpeech
        } else if has_infix(name, "locale"@) {
            MPQType::TbcLocale
        } else {
            MPQType::Unknown
        }
    } else if dashes == 0 {
        MPQType::Tbc
    } else {
        MPQType::Unknown
    }
}

/// The same kind, moved from the first expansion to the second.
pub open spec fn as_wotlk(t: MPQType) -> MPQType {
    match t {
        MPQType::Tbc => MPQType::Wotlk,
        MPQType::TbcLocale => MPQType::WotlkLocale,
        MPQType::TbcSpeech => MPQType::WotlkSpeech,
        other => other,
    }
}

/// The kind of an archive, by its file name.
pub open spec fn mpq_type_of(name: Seq<char>) -> MPQType {
    let dashes = char_count(name, '-');
    if has_prefix(name, "expansion"@) {
        type_from_dashes(name, dashes)
    } else if has_prefix(name, "lichking"@) {
        as_wotlk(type_from_dashes(name, dashes))
    } else if has_prefix(name, "patch"@) {
        if dashes == 2 {
            MPQType::PatchLocalized
        } else if dashes == 0 {
            MPQType::Patch
        } else if dashes == 1 && name.len() == 11 {
            MPQType::Patch
        } else if dashes == 1 && name.len() == 14 {
            MPQType::PatchLocalized
        } else {
            MPQType::Unknown
        }
    } else if has_prefix(name, "common"@) {
        MPQType::Common
    } else if has_prefix(name, "base"@) {
        MPQType::Base
    } else if has_prefix(name, "alternate"@) {
        MPQType::Alternate
    } else if has_prefix(name, "locale"@) {
        MPQType::Locale
    } else if has_prefix(name, "speech"@) {
        MPQType::Speech
    } else {
        MPQType::Unknown
    }
}

/// A name whose version character can be read: at least six characters, and the sixth and fifth
/// characters from the end start on character boundaries of its UTF-8 encoding.
pub open spec fn valid_archive_name(name: Seq<char>) -> bool {
    let bytes = encode_utf8(name);
    &&& name.len() >= 6
    &&& bytes.len() >= name.len()
    &&& is_char_boundary(bytes, name.len() - 6)
    &&& is_char_boundary(bytes, name.len() - 5)
}

/// Comparing the two names reads their versions: they are of the same kind, or one is a plain
/// patch and the other a localized patch.
pub open spec fn compares_versions(a: Seq<char>, b: Seq<char>) -> bool {
    let (ta, tb) = (mpq_type_of(a), mpq_type_of(b));
    ||| ta == tb
    ||| ta == MPQType::Patch && tb == MPQType::PatchLocalized
    ||| ta == MPQType::PatchLocalized && tb == MPQType::Patch
}

/// Two names can be compared: they are the same name, or their versions can be read wherever
/// the comparison reads them.
pub open spec fn comparable(a: Seq<char>, b: Seq<char>) -> bool {
    a == b || (compares_versions(a, b) ==> valid_archive_name(a) && valid_archive_name(b))
}

/// Every two of the names that end in `mpq` can be compared.
pub open spec fn mpq_names_sortable(names: Seq<String>) -> bool {
    forall|i: int, j: int|
        0 <= i < names.len() && 0 <= j < names.len() && is_mpq_file_name(names[i]@)
            && is_mpq_file_name(names[j]@) ==> comparable(#[trigger] names[i]@, #[trigger] names[j]@)
}

/// Every two of the names can be compared.
pub open spec fn sortable(names: Seq<String>) -> bool {
    forall|i: int, j: int|
        0 <= i < names.len() && 0 <= j < names.len() ==> comparable(
            #[trigger] names[i]@,
            #[trigger] names[j]@,
        )
}

/// The version of an archive (the byte after the dash in `…-x.mpq`), if it has one.
/// The dash is looked up at the sixth character from the end, the version byte is the fifth
/// byte from the end of the UTF-8 encoding.
pub open spec fn version_of(name: Seq<char>) -> Option<u8> {
    let bytes = encode_utf8(name);
    if bytes[name.len() - 6] == 45u8 {
        Some(bytes[bytes.len() - 5])
    } else {
        None
    }
}

/// The sort key of an archive name: archives are ordered by comparing keys lexicographically.
///
/// Kinds come in load order. Versioned patches (of both kinds) come before unversioned ones,
/// plain patches before localized ones, higher versions first. Versioned common archives come
/// after the unversioned one, in ascending version. For every other kind, versioned archives come
/// first, higher versions first.
pub open spec fn order_key(name: Seq<char>) -> (int, int, int, int) {
    let t = mpq_type_of(name);
    let v = version_of(name);
    if t == MPQType::Patch || t == MPQType::PatchLocalized {
        (
            2,
            if v is Some {
                0
            } else {
                1
            },
            type_rank(t),
            if v is Some {
                -(v->0 as int)
            } else {
                0
            },
        )
    } else if t == MPQType::Common {
        (
            6,
            if v is Some {
                1
            } else {
                0
            },
            if v is Some {
                v->0 as int
            } else {
                0
            },
            0,
        )
    } else {
        (
            type_rank(t),
            if v is Some {
                0
            } else {
                1
            },
            if v is Some {
                -(v->0 as int)
            } else {
                0
            },
            0,
        )
    }
}

/// Comparison of two integers.
pub open spec fn int_order(a: int, b: int) -> Ordering {
    if a < b {
        Ordering::Less
    } else if a == b {
        Ordering::Equal
    } else {
        Ordering::Greater
    }
}

/// Lexicographic comparison of two sort keys.
pub open spec fn key_order(a: (int, int, int, int), b: (int, int, int, int)) -> Ordering {
    if a.0 != b.0 {
        int_order(a.0, b.0)
    } else if a.1 != b.1 {
        int_order(a.1, b.1)
    } else if a.2 != b.2 {
        int_order(a.2, b.2)
    } else {
        int_order(a.3, b.3)
    }
}

/// The load order of two archive names.
pub open spec fn archive_order(a: Seq<char>, b: Seq<char>) -> Ordering {
    key_order(order_key(a), order_key(b))
}

/// A name that the archive enumeration keeps: it ends in `mpq`, in any letter case.
pub open spec fn is_mpq_file_name(name: Seq<char>) -> bool {
    &&& name.len() >= 3
    &&& ascii_lower(name[name.len() - 3]) == 'm'
    &&& ascii_lower(name[name.len() - 2]) == 'p'
    &&& ascii_lower(name[name.len() - 1]) == 'q'
}

/// ASCII lower case of a character (other characters are kept).
pub open spec fn ascii_lower(c: char) -> char {
    if 'A' <= c <= 'Z' {
        ((c as u8) + 32) as char
    } else {
        c
    }
}

/// A sequence of names in load order.
pub open spec fn in_load_order(names: Seq<String>) -> bool {
    forall|i: int, j: int|
        0 <= i < j < names.len() ==> archive_order(names[i]@, names[j]@) != Ordering::Greater
}

/// The names of `names` whose sort key is `k`, in their order.
pub open spec fn with_key(names: Seq<String>, k: (int, int, int, int)) -> Seq<String> {
    names.filter(|s: String| order_key(s@) == k)
}

/// Sorts archive names into load order with `Itertools::sorted_by` (a stable sort) and the
/// comparison `MPQLoader::sorting_order`. The contract states what the stable sort gives for a
/// total order: the result is in load order, and names with equal keys keep their relative
/// order, so that the result is a permutation of the input. `archive_order` is a total
/// preorder (see the lemmas below), and every two names can be compared (`sortable`, the
/// `requires` of `MPQLoader::sorting_order`), so the sort does not panic.
#[verifier::external_body]
fn sort_archive_names(names: Vec<String>) -> (sorted: Vec<String>)
    requires
        sortable(names@),
    ensures
        in_load_order(sorted@),
        forall|k: (int, int, int, int)| with_key(sorted@, k) == with_key(names@, k),
        sorted@.to_multiset() == names@.to_multiset(),
{
    names.into_iter().sorted_by(|a, b| MPQLoader::sorting_order(a, b)).collect()
}


/// Every archive name is in load order with itself.
pub proof fn lemma_archive_order_reflexive(a: Seq<char>)
    ensures
        archive_order(a, a) == Ordering::Equal,
{
}

/// Swapping two archive names reverses their load order.
pub proof fn lemma_archive_order_antisymmetric(a: Seq<char>, b: Seq<char>)
    ensures
        archive_order(a, b) == Ordering::Less <==> archive_order(b, a) == Ordering::Greater,
        archive_order(a, b) == Ordering::Equal <==> archive_order(b, a) == Ordering::Equal,
{
}

/// The load order is transitive, so that it is a total preorder and a sort by it is well defined.
pub proof fn lemma_archive_order_transitive(a: Seq<char>, b: Seq<char>, c: Seq<char>)
    requires
        archive_order(a, b) != Ordering::Greater,
        archive_order(b, c) != Ordering::Greater,
    ensures
        archive_order(a, c) != Ordering::Greater,
        archive_order(a, b) == Ordering::Less || archive_order(b, c) == Ordering::Less
            ==> archive_order(a, c) == Ordering::Less,
{
}

/// Names of different kinds (other than a plain and a localized patch) come in the load order
/// of their kinds, whatever their versions.
pub proof fn lemma_order_by_kind(a: Seq<char>, b: Seq<char>)
    requires
        !compares_versions(a, b),
    ensures
        archive_order(a, b) == int_order(type_rank(mpq_type_of(a)), type_rank(mpq_type_of(b))),
{
}

/// An archive named `lichking…` is of the second expansion's version of the kind of the
/// archive named `expansion…` with the same rest of the name.
pub proof fn lemma_lichking_mirrors_expansion(rest: Seq<char>)
    ensures
        mpq_type_of("lichking"@ + rest) == as_wotlk(mpq_type_of("expansion"@ + rest)),
{
    reveal_strlit("lichking");
    reveal_strlit("expansion");
    reveal_strlit("speech");
    reveal_strlit("locale");
    let e = "expansion"@;
    let l = "lichking"@;
    let en = e + rest;
    let ln = l + rest;
    assert(en.subrange(0, 9) =~= e);
    assert(ln.subrange(0, 8) =~= l);
    assert(ln.len() < 9 || ln.subrange(0, 9)[0] != e[0]);
    assert(!has_prefix(ln, e));
    lemma_char_count_absent(e, '-');
    lemma_char_count_absent(l, '-');
    lemma_char_count_concat(e, rest, '-');
    lemma_char_count_concat(l, rest, '-');
    let speech = "speech"@;
    let locale = "locale"@;
    assert forall|i: int| 0 <= i < e.len() implies #[trigger] breaks_off(e, speech, i) by {
        if i == 5 {
            assert(e[i + 1] != speech[1]);
        } else {
            assert(e[i + 0] != speech[0]);
        }
    }
    assert forall|i: int| 0 <= i < e.len() implies #[trigger] breaks_off(e, locale, i) by {
        assert(e[i + 0] != locale[0]);
    }
    assert forall|i: int| 0 <= i < l.len() implies #[trigger] breaks_off(l, speech, i) by {
        assert(l[i + 0] != speech[0]);
    }
    assert forall|i: int| 0 <= i < l.len() implies #[trigger] breaks_off(l, locale, i) by {
        if i == 0 {
            assert(l[i + 1] != locale[1]);
        } else {
            assert(l[i + 0] != locale[0]);
        }
    }
    lemma_infix_behind_prefix(e, rest, speech);
    lemma_infix_behind_prefix(e, rest, locale);
    lemma_infix_behind_prefix(l, rest, speech);
    lemma_infix_behind_prefix(l, rest, locale);
}

/// The load order by kind and version: kinds come in the order of `MPQType`; patches with a
/// version come before those without, plain before localized; within a kind, archives with a
/// version come first and higher versions first (`z > a > 9 > 1`), except for common archives,
/// where the unversioned archive comes first and versions ascend.
pub proof fn lemma_load_order_by_kind_and_version(a: Seq<char>, b: Seq<char>)
    ensures
        ({
            let (ta, tb) = (mpq_type_of(a), mpq_type_of(b));
            let (va, vb) = (version_of(a), version_of(b));
            let patch_a = ta == MPQType::Patch || ta == MPQType::PatchLocalized;
            let patch_b = tb == MPQType::Patch || tb == MPQType::PatchLocalized;
            &&& !(patch_a && patch_b) && type_rank(ta) < type_rank(tb) ==> archive_order(a, b)
                == Ordering::Less
            &&& patch_a && patch_b && va is Some && vb is None ==> archive_order(a, b)
                == Ordering::Less
            &&& patch_a && patch_b && (va is Some <==> vb is Some) && ta == MPQType::Patch && tb
                == MPQType::PatchLocalized ==> archive_order(a, b) == Ordering::Less
            &&& ta == tb && ta != MPQType::Common && va is Some && vb is None ==> archive_order(
                a,
                b,
            ) == Ordering::Less
            &&& ta == tb && ta != MPQType::Common && va is Some && vb is Some && va->0 > vb->0
                ==> archive_order(a, b) == Ordering::Less
            &&& ta == tb && ta == MPQType::Common && va is None && vb is Some ==> archive_order(
                a,
                b,
            ) == Ordering::Less
            &&& ta == tb && ta == MPQType::Common && va is Some && vb is Some && va->0 < vb->0
                ==> archive_order(a, b) == Ordering::Less
        }),
{
}

/// The archives of a game installation, in load order.
pub struct MPQLoader {
    prioritized_archives: Vec<String>,
    data_folder: String,
}

impl MPQLoader {
    /// Well-formedness: the archive names are MPQ names that can be compared with each other,
    /// in load order.
    pub closed spec fn well_formed(&self) -> bool {
        &&& forall|i: int|
            0 <= i < self.prioritized_archives@.len() ==> is_mpq_file_name(
                #[trigger] self.prioritized_archives@[i]@,
            )
        &&& sortable(self.prioritized_archives@)
        &&& in_load_order(self.prioritized_archives@)
    }

    /// The archive names, in load order.
    pub closed spec fn archives(&self) -> Seq<String> {
        self.prioritized_archives@
    }

    /// The folder that the archives were found in.
    pub closed spec fn folder(&self) -> Seq<char> {
        self.data_folder@
    }

    /// Builds the load order from the file names found in the data folder (and in its locale
    /// folder): names that do not end in `mpq` are dropped, the others are sorted into load order.
    pub fn new(data_folder: &str, file_names: Vec<String>) -> (loader: Self)
        requires
            mpq_names_sortable(file_names@),
        ensures
            loader.well_formed(),
            loader.folder() == data_folder@,
            forall|k: (int, int, int, int)|
                with_key(loader.archives(), k) == with_key(
                    file_names@.filter(|s: String| is_mpq_file_name(s@)),
                    k,
                ),
    {
        let ghost pred = |s: String| is_mpq_file_name(s@);
        let mut kept: Vec<String> = Vec::new();
        let n = file_names.len();
        let mut i: usize = 0;
        while i < n
            invariant
                n == file_names.len(),
                i <= n,
                kept@ == file_names@.subrange(0, i as int).filter(pred),
                forall|s: String| #[trigger] pred(s) == is_mpq_file_name(s@),
            decreases n - i,
        {
            let name = file_names[i].clone();
            assert(name == file_names@[i as int]);
            proof {
                file_names@.subrange(0, i as int).lemma_filter_push(file_names@[i as int], pred);
                assert(file_names@.subrange(0, i + 1) =~= file_names@.subrange(0, i as int).push(
                    file_names@[i as int],
                ));
            }
            let name_str = name.as_str();
            let keep = Self::is_mpq_name(name_str);
            assert(name_str@ == name@);
            assert(keep == is_mpq_file_name(name@));
            assert(keep == pred(file_names@[i as int]));
            if keep {
                kept.push(name);
            }
            i += 1;
        }
        assert(file_names@.subrange(0, n as int) =~= file_names@);
        proof {
            broadcast use vstd::seq_lib::group_filter_ensures;

            assert forall|a: int, b: int|
                0 <= a < kept@.len() && 0 <= b < kept@.len() implies comparable(
                #[trigger] kept@[a]@,
                #[trigger] kept@[b]@,
            ) by {
                let x = kept@[a];
                let y = kept@[b];
                assert(file_names@.filter(pred).contains(x));
                assert(file_names@.filter(pred).contains(y));
                file_names@.lemma_filter_contains_rev(pred, x);
                file_names@.lemma_filter_contains_rev(pred, y);
                let ia = choose|i: int| 0 <= i < file_names@.len() && file_names@[i] == x;
                let ib = choose|i: int| 0 <= i < file_names@.len() && file_names@[i] == y;
                assert(is_mpq_file_name(file_names@[ia]@) && is_mpq_file_name(file_names@[ib]@));
            }
            assert forall|j: int| 0 <= j < kept@.len() implies is_mpq_file_name(
                #[trigger] kept@[j]@,
            ) by {
                assert(pred(kept@[j]));
            }
        }
        let sorted = sort_archive_names(kept);
        proof {
            broadcast use vstd::seq_lib::group_to_multiset_ensures;

            assert forall|j: int| 0 <= j < sorted@.len() implies #[trigger] kept@.contains(
                sorted@[j],
            ) by {
                let x = sorted@[j];
                assert(sorted@.contains(x));
                assert(sorted@.to_multiset().count(x) > 0);
                assert(kept@.to_multiset().count(x) > 0);
            }
            assert forall|a: int, b: int|
                0 <= a < sorted@.len() && 0 <= b < sorted@.len() implies comparable(
                #[trigger] sorted@[a]@,
                #[trigger] sorted@[b]@,
            ) by {
                assert(kept@.contains(sorted@[a]));
                assert(kept@.contains(sorted@[b]));
                let ia = choose|i: int| 0 <= i < kept@.len() && kept@[i] == sorted@[a];
                let ib = choose|i: int| 0 <= i < kept@.len() && kept@[i] == sorted@[b];
                assert(comparable(kept@[ia]@, kept@[ib]@));
            }
            assert forall|j: int| 0 <= j < sorted@.len() implies is_mpq_file_name(
                #[trigger] sorted@[j]@,
            ) by {
                assert(kept@.contains(sorted@[j]));
                let i = choose|i: int| 0 <= i < kept@.len() && kept@[i] == sorted@[j];
                assert(is_mpq_file_name(kept@[i]@));
            }
        }
        MPQLoader { prioritized_archives: sorted, data_folder: data_folder.to_owned() }
    }

    /// The archive names, in load order.
    pub fn archive_names(&self) -> (names: &Vec<String>)
        ensures
            names@ == self.archives(),
    {
        &self.prioritized_archives
    }

    /// Whether a file name ends in `mpq`, in any letter case.
    pub fn is_mpq_name(file_name: &str) -> (r: bool)
        ensures
            r == is_mpq_file_name(file_name@),
    {
        let n = file_name.unicode_len();
        if n < 3 {
            return false;
        }
        let m = Self::ascii_lowercase(file_name.get_char(n - 3));
        let p = Self::ascii_lowercase(file_name.get_char(n - 2));
        let q = Self::ascii_lowercase(file_name.get_char(n - 1));
        m == 'm' && p == 'p' && q == 'q'
    }

    fn ascii_lowercase(c: char) -> (r: char)
        ensures
            r == ascii_lower(c),
    {
        if 'A' <= c && c <= 'Z' {
            ((c as u8) + 32u8) as char
        } else {
            c
        }
    }

    /// Whether the version of a file name can be read (see `valid_archive_name`).
    pub fn is_valid_archive_name(file_name: &str) -> (r: bool)
        ensures
            r == valid_archive_name(file_name@),
    {
        let n = file_name.unicode_len();
        if n < 6 {
            return false;
        }
        let bytes = file_name.as_bytes();
        if bytes.len() < n {
            return false;
        }
        file_name.is_char_boundary(n - 6) && file_name.is_char_boundary(n - 5)
    }

    /// Determines the load order of two MPQ files based on their kind and version.
    pub fn sorting_order(a: &str, b: &str) -> (r: Ordering)
        requires
            comparable(a@, b@),
        ensures
            r == archive_order(a@, b@),
    {
        // The same name is in the same place of the load order; no version is read.
        if str_eq(a, b) {
            return Ordering::Equal;
        }
        let type_a = Self::extract_mpq_type(a);
        let type_b = Self::extract_mpq_type(b);
        let rank_a = Self::rank(type_a);
        let rank_b = Self::rank(type_b);
        if rank_a == rank_b {
            let version_a = Self::extract_mpq_version(a);
            let version_b = Self::extract_mpq_version(b);
            Self::sort_by_version(version_a, version_b, type_a, type_b)
        } else if (type_a == MPQType::Patch && type_b == MPQType::PatchLocalized) || (type_a
            == MPQType::PatchLocalized && type_b == MPQType::Patch) {
            // Patches are sorted by version: patch version > patchLocalized version > patch > patchLocalized
            let version_a = Self::extract_mpq_version(a);
            let version_b = Self::extract_mpq_version(b);
            if version_a.is_some() && version_b.is_none() {
                Ordering::Less
            } else if version_a.is_none() && version_b.is_some() {
                Ordering::Greater
            } else if rank_a < rank_b {
                Ordering::Less
            } else {
                Ordering::Greater
            }
        } else {
            proof {
                lemma_order_by_kind(a@, b@);
            }
            if rank_a < rank_b {
                Ordering::Less
            } else {
                Ordering::Greater
            }
        }
    }

    /// Whether two names can be compared (see `comparable`).
    pub fn comparable_names(a: &str, b: &str) -> (r: bool)
        ensures
            r == comparable(a@, b@),
    {
        if str_eq(a, b) {
            return true;
        }
        let type_a = Self::extract_mpq_type(a);
        let type_b = Self::extract_mpq_type(b);
        let versions_read = type_a == type_b || (type_a == MPQType::Patch && type_b
            == MPQType::PatchLocalized) || (type_a == MPQType::PatchLocalized && type_b
            == MPQType::Patch);
        !versions_read || (Self::is_valid_archive_name(a) && Self::is_valid_archive_name(b))
    }

    /// Whether every two of the names that end in `mpq` can be compared, as `new` needs.
    pub fn names_sortable(file_names: &Vec<String>) -> (r: bool)
        ensures
            r == mpq_names_sortable(file_names@),
    {
        let n = file_names.len();
        let mut i: usize = 0;
        while i < n
            invariant
                n == file_names@.len(),
                i <= n,
                forall|x: int, y: int|
                    0 <= x < i && 0 <= y < n && is_mpq_file_name(file_names@[x]@)
                        && is_mpq_file_name(file_names@[y]@) ==> comparable(
                        #[trigger] file_names@[x]@,
                        #[trigger] file_names@[y]@,
                    ),
            decreases n - i,
        {
            let mut j: usize = 0;
            while j < n
                invariant
                    n == file_names@.len(),
                    i < n,
                    j <= n,
                    forall|x: int, y: int|
                        0 <= x < i && 0 <= y < n && is_mpq_file_name(file_names@[x]@)
                            && is_mpq_file_name(file_names@[y]@) ==> comparable(
                            #[trigger] file_names@[x]@,
                            #[trigger] file_names@[y]@,
                        ),
                    forall|y: int|
                        0 <= y < j && is_mpq_file_name(file_names@[i as int]@) && is_mpq_file_name(
                            file_names@[y]@,
                        ) ==> comparable(file_names@[i as int]@, #[trigger] file_names@[y]@),
                decreases n - j,
            {
                let a = file_names[i].as_str();
                let b = file_names[j].as_str();
                if Self::is_mpq_name(a) && Self::is_mpq_name(b) && !Self::comparable_names(a, b) {
                    return false;
                }
                j += 1;
            }
            i += 1;
        }
        true
    }

    fn rank(t: MPQType) -> (r: u8)
        ensures
            r as int == type_rank(t),
    {
        match t {
            MPQType::Base => 0,
            MPQType::Alternate => 1,
            MPQType::Patch => 2,
            MPQType::PatchLocalized => 3,
            MPQType::Tbc => 4,
            MPQType::Wotlk => 5,
            MPQType::Common => 6,
            MPQType::Locale => 7,
            MPQType::Speech => 8,
            MPQType::TbcLocale => 9,
            MPQType::WotlkLocale => 10,
            MPQType::TbcSpeech => 11,
            MPQType::WotlkSpeech => 12,
            MPQType::Unknown => 13,
        }
    }

    /// Orders the versions of two MPQ files of the same kind. Archives with a version come
    /// first, higher versions first; common archives are the other way round.
    pub fn sort_by_version(
        version_a: Option<u8>,
        version_b: Option<u8>,
        type_a: MPQType,
        type_b: MPQType,
    ) -> (r: Ordering)
        ensures
            version_a is Some && version_b is None ==> r == if type_a == MPQType::Common {
                Ordering::Greater
            } else {
                Ordering::Less
            },
            version_a is None && version_b is Some ==> r == if type_a == MPQType::Common {
                Ordering::Less
            } else {
                Ordering::Greater
            },
            version_a is None && version_b is None ==> r == Ordering::Equal,
            version_a is Some && version_b is Some ==> r == if type_b == MPQType::Common {
                int_order(version_a->0 as int, version_b->0 as int)
            } else {
                int_order(version_b->0 as int, version_a->0 as int)
            },
    {
        match (version_a, version_b) {
            (Some(_), None) => {
                if type_a == MPQType::Common {
                    Ordering::Greater
                } else {
                    Ordering::Less
                }
            },
            (None, Some(_)) => {
                if type_a == MPQType::Common {
                    Ordering::Less
                } else {
                    Ordering::Greater
                }
            },
            (None, None) => Ordering::Equal,
            (Some(va), Some(vb)) => {
                let (x, y) = if type_b == MPQType::Common {
                    (va, vb)
                } else {
                    (vb, va)
                };
                if x < y {
                    Ordering::Less
                } else if x == y {
                    Ordering::Equal
                } else {
                    Ordering::Greater
                }
            },
        }
    }

    /// Determines the kind of an MPQ file from its name alone.
    pub fn extract_mpq_type(file_name: &str) -> (t: MPQType)
        ensures
            t == mpq_type_of(file_name@),
    {
        let dash_count = count_char(file_name, '-');
        if starts_with(file_name, "expansion") {
            Self::extract_from_dash_count(file_name, dash_count)
        } else if starts_with(file_name, "lichking") {
            match Self::extract_from_dash_count(file_name, dash_count) {
                MPQType::Tbc => MPQType::Wotlk,
                MPQType::TbcLocale => MPQType::WotlkLocale,
                MPQType::TbcSpeech => MPQType::WotlkSpeech,
                other => other,
            }
        } else if starts_with(file_name, "patch") {
            if dash_count == 2 {
                return MPQType::PatchLocalized;
            } else if dash_count == 0 {
                return MPQType::Patch;
            } else if dash_count == 1 {
                // This could be patch-enUS.mpq or patch-3.mpq
                let length = file_name.unicode_len();
                if length == 11 {
                    return MPQType::Patch;
                } else if length == 14 {
                    return MPQType::PatchLocalized;
                }
            }
            MPQType::Unknown
        } else if starts_with(file_name, "common") {
            MPQType::Common
        } else if starts_with(file_name, "base") {
            MPQType::Base
        } else if starts_with(file_name, "alternate") {
            MPQType::Alternate
        } else if starts_with(file_name, "locale") {
            MPQType::Locale
        } else if starts_with(file_name, "speech") {
            MPQType::Speech
        } else {
            MPQType::Unknown
        }
    }

    /// The kind of an expansion archive from the number of dashes in its name and from whether
    /// it is a speech or a general locale archive.
    pub fn extract_from_dash_count(file_name: &str, dash_count: usize) -> (t: MPQType)
        ensures
            t == type_from_dashes(file_name@, dash_count as nat),
    {
        if dash_count == 2 {
            if contains_str(file_name, "speech") {
                MPQType::TbcSpeech
            } else if contains_str(file_name, "locale") {
                MPQType::TbcLocale
            } else {
                MPQType::Unknown
            }
        } else if dash_count == 0 {
            MPQType::Tbc
        } else {
            MPQType::Unknown
        }
    }

    /// The character used as version (0-9, A-Z) of files named `…-x.mpq`, as a byte:
    /// `patch-7.mpq` gives `b'7'`. Localized files (`patch-enUS-2.mpq`) work the same way.
    pub fn extract_mpq_version(file_name: &str) -> (v: Option<u8>)
        requires
            valid_archive_name(file_name@),
        ensures
            v == version_of(file_name@),
    {
        let count = file_name.unicode_len();
        let bytes = file_name.as_bytes();
        if bytes[count - 6] == 45u8 {
            Some(bytes[file_name.len() - 5])
        } else {
            None
        }
    }
}

} // verus!
