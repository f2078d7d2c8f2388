//! The client's database tables (DBC files): which files the table reader can take without
//! failing hard, and the rows that the library reads from them.
//!
//! A DBC file is a header of five little-endian `u32` (the magic `WDBC`, the record count, the
//! field count, the record size and the size of the string block), the records, and a block of
//! NUL-terminated strings that string fields refer to by offset (0 for the empty string).
use crate::char_sections::{
    CharHairGeoset, CharSection, CreatureDisplayInfoExtra, FacialHairStyle,
};
use crate::game_state::MapRow;
use crate::display_resolver::{CreatureDisplayInfoRow, CreatureModelDataRow, ItemDisplayInfoRow};
use crate::light_bands::LightBandRow;
use crate::light_settings::{LightParamsRow, LightRow, LightSkyboxRow};
use crate::zone_music::{AreaInfo, SoundEntry, ZoneIntroMusic, ZoneMusicInfo};
use vstd::prelude::*;
use wow_dbc::wrath_tables::area_table::AreaTable;
use wow_dbc::wrath_tables::char_hair_geosets::CharHairGeosets;
use wow_dbc::wrath_tables::char_sections::CharSections;
use wow_dbc::wrath_tables::character_facial_hair_styles::CharacterFacialHairStyles;
use wow_dbc::wrath_tables::creature_display_info::CreatureDisplayInfo;
use wow_dbc::wrath_tables::creature_display_info_extra::{
    CreatureDisplayInfoExtra as CreatureDisplayInfoExtraTable,
};
use wow_dbc::wrath_tables::creature_model_data::CreatureModelData;
use wow_dbc::wrath_tables::item_display_info::ItemDisplayInfo;
use wow_dbc::wrath_tables::light::Light as LightTable;
use wow_dbc::wrath_tables::light_float_band::LightFloatBand;
use wow_dbc::wrath_tables::light_int_band::LightIntBand;
use wow_dbc::wrath_tables::light_params::LightParams;
use wow_dbc::wrath_tables::light_skybox::LightSkybox;
use wow_dbc::wrath_tables::map::Map as MapTable;
use wow_dbc::wrath_tables::sound_entries::SoundEntries;
use wow_dbc::wrath_tables::zone_intro_music_table::ZoneIntroMusicTable;
use wow_dbc::wrath_tables::zone_music::ZoneMusic;
use wow_dbc::{DbcError, DbcTable};

verus! {

/// The magic number at the start of every DBC file (`WDBC`).
pub const DBC_MAGIC: u32 = 0x43424457;

/// Why a table file could not be read.
#[derive(Debug, Clone, Copy, PartialEq, Eq, Structural)]
pub enum DbcReadError {
    /// The header declares more records or strings than the file holds.
    Truncated,
    /// A string field refers outside the string block, or to a string without its NUL.
    BadStringReference,
    /// The table reader refused the file (wrong magic or layout, bad UTF-8, missing bytes).
    Malformed,
}

/// The little-endian `u32` at byte offset `at`.
pub open spec fn le_u32(b: Seq<u8>, at: int) -> int {
    b[at] as int + b[at + 1] as int * 256 + b[at + 2] as int * 65536 + b[at + 3] as int
        * 16777216
}

/// The file starts with the header of a table with the given record size and field count.
pub open spec fn header_matches(b: Seq<u8>, record_size: int, field_count: int) -> bool {
    &&& b.len() >= 20
    &&& le_u32(b, 0) == DBC_MAGIC
    &&& le_u32(b, 12) == record_size
    &&& le_u32(b, 8) == field_count
}

/// The table has string fields (some range of them is not empty); only then does its reader
/// read the string block.
pub open spec fn has_string_fields(strings: [(u32, u32); 4]) -> bool {
    ||| strings[0].0 < strings[0].1
    ||| strings[1].0 < strings[1].1
    ||| strings[2].0 < strings[2].1
    ||| strings[3].0 < strings[3].1
}

/// The records that the header declares, and the string block where the reader reads it, fit
/// in the file.
pub open spec fn sizes_fit(b: Seq<u8>, record_size: int, strings: [(u32, u32); 4]) -> bool {
    &&& le_u32(b, 4) * record_size <= u32::MAX
    &&& 20 + le_u32(b, 4) * record_size + (if has_string_fields(strings) {
        le_u32(b, 16)
    } else {
        0
    }) <= b.len()
}

/// A string reference is the empty string, or the offset of a NUL-terminated string inside
/// the string block that starts at `block_start` and is `block_len` bytes long.
pub open spec fn string_ref_ok(b: Seq<u8>, block_start: int, block_len: int, offset: int) -> bool {
    offset == 0 || (offset < block_len && exists|j: int|
        offset <= j < block_len && #[trigger] b[block_start + j] == 0)
}

/// Field `f` is one of the string fields, given as up to four ranges of field indices (an
/// unused range is `(0, 0)`).
pub open spec fn is_string_field(f: int, strings: [(u32, u32); 4]) -> bool {
    ||| strings[0].0 <= f < strings[0].1
    ||| strings[1].0 <= f < strings[1].1
    ||| strings[2].0 <= f < strings[2].1
    ||| strings[3].0 <= f < strings[3].1
}

/// Field `f` lies in one of the first `k` ranges of string fields.
pub open spec fn in_first_ranges(f: int, strings: [(u32, u32); 4], k: int) -> bool {
    ||| 0 < k && strings[0].0 <= f < strings[0].1
    ||| 1 < k && strings[1].0 <= f < strings[1].1
    ||| 2 < k && strings[2].0 <= f < strings[2].1
    ||| 3 < k && strings[3].0 <= f < strings[3].1
}

/// The offset of field `f` of record `r` in the file.
pub open spec fn field_offset(record_size: int, r: int, f: int) -> int {
    20 + r * record_size + 4 * f
}

/// Field `f` of record `r` (records of `record_size` bytes), read as an `i32`.
pub open spec fn field_i32(b: Seq<u8>, record_size: int, r: int, f: int) -> i32 {
    le_u32(b, field_offset(record_size, r, f)) as i32
}

/// Field `f` of record `r`, read as a `u32` (for a float field: the bits of the float).
pub open spec fn field_u32(b: Seq<u8>, record_size: int, r: int, f: int) -> u32 {
    le_u32(b, field_offset(record_size, r, f)) as u32
}

/// `n` fields of record `r` from field `first` on, read as `i32`.
pub open spec fn fields_i32(b: Seq<u8>, record_size: int, r: int, first: int, n: nat) -> Seq<i32> {
    Seq::new(n, |k: int| field_i32(b, record_size, r, first + k))
}

/// `n` fields of record `r` from field `first` on, read as `u32`.
pub open spec fn fields_u32(b: Seq<u8>, record_size: int, r: int, first: int, n: nat) -> Seq<u32> {
    Seq::new(n, |k: int| field_u32(b, record_size, r, first + k))
}

/// Every string field of every record is a good string reference.
pub open spec fn strings_ok(b: Seq<u8>, record_size: int, strings: [(u32, u32); 4]) -> bool {
    let count = le_u32(b, 4);
    let block_start = 20 + count * record_size;
    forall|r: int, f: int|
        0 <= r < count && is_string_field(f, strings) ==> string_ref_ok(
            b,
            block_start,
            le_u32(b, 16),
            le_u32(b, #[trigger] field_offset(record_size, r, f)),
        )
}

/// What keeps a file of a table (records of `record_size` bytes, `field_count` fields, the
/// given string fields) from being read: nothing where its header is not that of the table
/// (the reader refuses it by itself), a header that declares more than the file holds, or a
/// bad string reference.
pub open spec fn dbc_problem(
    b: Seq<u8>,
    record_size: int,
    field_count: int,
    strings: [(u32, u32); 4],
) -> Option<DbcReadError> {
    if !header_matches(b, record_size, field_count) {
        None
    } else if !sizes_fit(b, record_size, strings) {
        Some(DbcReadError::Truncated)
    } else if !strings_ok(b, record_size, strings) {
        Some(DbcReadError::BadStringReference)
    } else {
        None
    }
}

/// The outcome of reading a table: the problem of the file if it has one, else the rows that
/// the reader gives, or `Malformed` where it refuses the file.
pub open spec fn read_outcome<T>(problem: Option<DbcReadError>, rows: Option<Seq<T>>) -> Result<
    Seq<T>,
    DbcReadError,
> {
    match problem {
        Some(e) => Err(e),
        None => match rows {
            Some(s) => Ok(s),
            None => Err(DbcReadError::Malformed),
        },
    }
}

/// The rows of a read result as a sequence.
pub open spec fn rows_result<T>(r: Result<Vec<T>, DbcReadError>) -> Result<Seq<T>, DbcReadError> {
    match r {
        Ok(v) => Ok(v@),
        Err(e) => Err(e),
    }
}

/// The little-endian `u32` at byte offset `at`.
fn read_u32(b: &[u8], at: usize) -> (r: u64)
    requires
        at + 4 <= b@.len(),
    ensures
        r == le_u32(b@, at as int),
{
    b[at] as u64 + b[at + 1] as u64 * 256 + b[at + 2] as u64 * 65536 + b[at + 3] as u64 * 16777216
}

/// Whether the string block holds a NUL at or after `offset`.
fn string_terminated(b: &[u8], block_start: usize, block_len: usize, offset: usize) -> (r: bool)
    requires
        block_start + block_len <= b@.len(),
        offset < block_len,
    ensures
        r == exists|j: int| offset <= j < block_len && #[trigger] b@[block_start + j] == 0,
{
    let n = b.len();
    let mut j: usize = offset;
    while j < block_len
        invariant
            n == b@.len(),
            block_start + block_len <= b@.len(),
            offset <= j <= block_len,
            forall|k: int| offset <= k < j ==> #[trigger] b@[block_start + k] != 0,
        decreases block_len - j,
    {
        if b[block_start + j] == 0 {
            return true;
        }
        j += 1;
    }
    false
}

proof fn lemma_field_in_record(record_size: int, count: int, r: int, f: int, field_count: int)
    requires
        0 <= r < count,
        0 <= f < field_count,
        record_size == 4 * field_count,
    ensures
        0 <= r * record_size,
        field_offset(record_size, r, f) + 4 <= 20 + count * record_size,
{
    assert(0 <= r * record_size) by (nonlinear_arith)
        requires
            0 <= r,
            0 <= record_size,
    ;
    assert((r + 1) * record_size <= count * record_size) by (nonlinear_arith)
        requires
            r + 1 <= count,
            0 <= record_size,
    ;
    assert((r + 1) * record_size == r * record_size + record_size) by (nonlinear_arith);
}

/// Checks the string fields `lo..hi` of record `r`.
fn record_strings_ok(
    b: &[u8],
    record_size: usize,
    field_count: usize,
    count: usize,
    block_len: usize,
    r: usize,
    lo: usize,
    hi: usize,
) -> (ok: bool)
    requires
        record_size == 4 * field_count,
        hi <= field_count,
        r < count,
        count * record_size + block_len + 20 <= b@.len(),
    ensures
        ok == forall|f: int|
            lo <= f < hi ==> string_ref_ok(
                b@,
                20 + count * record_size,
                block_len as int,
                le_u32(b@, #[trigger] field_offset(record_size as int, r as int, f)),
            ),
{
    let n = b.len();
    let block_start = 20 + count * record_size;
    let mut f: usize = lo;
    while f < hi
        invariant
            n == b@.len(),
            record_size == 4 * field_count,
            hi <= field_count,
            r < count,
            count * record_size + block_len + 20 <= b@.len(),
            block_start == 20 + count * record_size,
            lo <= f || hi <= f,
            forall|g: int|
                lo <= g < f && g < hi ==> string_ref_ok(
                    b@,
                    20 + count * record_size,
                    block_len as int,
                    le_u32(b@, #[trigger] field_offset(record_size as int, r as int, g)),
                ),
        decreases hi - f,
    {
        proof {
            lemma_field_in_record(
                record_size as int,
                count as int,
                r as int,
                f as int,
                field_count as int,
            );
        }
        let at = 20 + r * record_size + 4 * f;
        assert(at == field_offset(record_size as int, r as int, f as int));
        let offset = read_u32(b, at);
        if offset != 0 {
            if offset >= block_len as u64 {
                return false;
            }
            if !string_terminated(b, block_start, block_len, offset as usize) {
                return false;
            }
        }
        f += 1;
    }
    true
}

/// What keeps a file of a table with the given layout from being read (see `dbc_problem`).
pub fn check_dbc(b: &[u8], record_size: u32, field_count: u32, strings: [(u32, u32); 4]) -> (r:
    Option<DbcReadError>)
    requires
        record_size == 4 * field_count,
        strings[0].1 <= field_count,
        strings[1].1 <= field_count,
        strings[2].1 <= field_count,
        strings[3].1 <= field_count,
    ensures
        r == dbc_problem(b@, record_size as int, field_count as int, strings),
{
    let len = b.len();
    if len < 20 {
        return None;
    }
    if read_u32(b, 0) != DBC_MAGIC as u64 || read_u32(b, 12) != record_size as u64 || read_u32(b, 8)
        != field_count as u64 {
        return None;
    }
    let count64 = read_u32(b, 4);
    let block64 = read_u32(b, 16);
    assert(count64 * record_size <= 0xffff_ffff * 0xffff_ffff) by (nonlinear_arith)
        requires
            count64 <= 0xffff_ffff,
            record_size <= 0xffff_ffff,
    ;
    let records64 = count64 * record_size as u64;
    let with_strings = strings[0].0 < strings[0].1 || strings[1].0 < strings[1].1 || strings[2].0
        < strings[2].1 || strings[3].0 < strings[3].1;
    if !with_strings {
        if records64 > 0xffff_ffff || records64 + 20 > len as u64 {
            return Some(DbcReadError::Truncated);
        }
        assert(!is_string_field(0, strings));
        assert(strings_ok(b@, record_size as int, strings));
        return None;
    }
    if records64 > 0xffff_ffff || records64 + block64 + 20 > len as u64 {
        return Some(DbcReadError::Truncated);
    }
    let count = count64 as usize;
    let block_len = block64 as usize;
    let field_count_u = field_count as usize;
    let record_size_u = record_size as usize;
    assert(count * record_size_u == records64);
    let mut r: usize = 0;
    while r < count
        invariant
            len == b@.len(),
            header_matches(b@, record_size as int, field_count as int),
            sizes_fit(b@, record_size as int, strings),
            count == le_u32(b@, 4),
            block_len == le_u32(b@, 16),
            record_size_u == record_size,
            field_count_u == field_count,
            record_size == 4 * field_count,
            strings[0].1 <= field_count,
            strings[1].1 <= field_count,
            strings[2].1 <= field_count,
            strings[3].1 <= field_count,
            count * record_size_u + block_len + 20 <= len,
            r <= count,
            forall|q: int, f: int|
                0 <= q < r && is_string_field(f, strings) ==> string_ref_ok(
                    b@,
                    20 + count * record_size,
                    block_len as int,
                    le_u32(b@, #[trigger] field_offset(record_size as int, q, f)),
                ),
        decreases count - r,
    {
        let mut k: usize = 0;
        while k < 4
            invariant
                len == b@.len(),
                header_matches(b@, record_size as int, field_count as int),
                sizes_fit(b@, record_size as int, strings),
                count == le_u32(b@, 4),
                block_len == le_u32(b@, 16),
                record_size_u == record_size,
                field_count_u == field_count,
                record_size == 4 * field_count,
                strings[0].1 <= field_count,
                strings[1].1 <= field_count,
                strings[2].1 <= field_count,
                strings[3].1 <= field_count,
                count * record_size_u + block_len + 20 <= len,
                r < count,
                k <= 4,
                forall|f: int|
                    in_first_ranges(f, strings, k as int) ==> string_ref_ok(
                        b@,
                        20 + count * record_size,
                        block_len as int,
                        le_u32(b@, #[trigger] field_offset(record_size as int, r as int, f)),
                    ),
            decreases 4 - k,
        {
            let (lo, hi) = strings[k];
            assert(hi <= field_count);
            let ok = record_strings_ok(
                b,
                record_size_u,
                field_count_u,
                count,
                block_len,
                r,
                lo as usize,
                hi as usize,
            );
            if !ok {
                assert(!strings_ok(b@, record_size as int, strings)) by {
                    let f = choose|f: int|
                        lo <= f < hi && !string_ref_ok(
                            b@,
                            20 + count * record_size,
                            block_len as int,
                            le_u32(b@, #[trigger] field_offset(record_size as int, r as int, f)),
                        );
                    assert(is_string_field(f, strings));
                }
                return Some(DbcReadError::BadStringReference);
            }
            k += 1;
        }
        assert forall|q: int, f: int|
            0 <= q < r + 1 && is_string_field(f, strings) implies string_ref_ok(
            b@,
            20 + count * record_size,
            block_len as int,
            le_u32(b@, #[trigger] field_offset(record_size as int, q, f)),
        ) by {
            if q == r {
                assert(in_first_ranges(f, strings, 4));
            }
        }
        r += 1;
    }
    None
}

/// The error type of the table readers of wow_dbc.
#[verifier::external_type_specification]
#[verifier::external_body]
pub struct ExDbcError(wow_dbc::DbcError);

/// The rows that the reader of the area table (AreaTable.dbc) gives for a file's bytes, with the
/// fields that the library reads; `None` where the reader refuses the file.
pub uninterp spec fn area_table_rows(bytes: Seq<u8>) -> Option<Seq<AreaInfo>>;

/// `AreaTable::read` of wow_dbc on the bytes of a file, each row taken down to the fields that the
/// library reads. Its rows are named by `area_table_rows`. The reader is not called on files with a
/// problem: their declared sizes could make it allocate more than the file holds, and a bad
/// string reference makes it index out of bounds.
#[verifier::external_body]
fn parse_area_table(bytes: &[u8]) -> (r: Result<Vec<AreaInfo>, DbcError>)
    requires
        dbc_problem(bytes@, 144, 36, [(11, 27), (0, 0), (0, 0), (0, 0)]) is None,
    ensures
        match r {
            Ok(rows) => area_table_rows(bytes@) == Some(rows@),
            Err(_) => area_table_rows(bytes@) is None,
        },
{
    let table = AreaTable::read(&mut &bytes[..])?;
    Ok(table.rows().iter().map(|row| AreaInfo {
        id: row.id.id,
        zone_music: row.zone_music.id,
        intro_sound: row.intro_sound.id,
    }).collect())
}

/// Reads the area table from the bytes of its file (144-byte records of 36 fields, string
/// fields 11 to 26).
pub fn read_area_table(bytes: &[u8]) -> (r: Result<Vec<AreaInfo>, DbcReadError>)
    ensures
        rows_result(r) == read_outcome(
            dbc_problem(bytes@, 144, 36, [(11, 27), (0, 0), (0, 0), (0, 0)]),
            area_table_rows(bytes@),
        ),
{
    if let Some(problem) = check_dbc(bytes, 144, 36, [(11, 27), (0, 0), (0, 0), (0, 0)]) {
        return Err(problem);
    }
    match parse_area_table(bytes) {
        Ok(rows) => Ok(rows),
        Err(_) => Err(DbcReadError::Malformed),
    }
}

/// The rows that the reader of the zone music table (ZoneMusic.dbc) gives for a file's bytes, with
/// the fields that the library reads; `None` where the reader refuses the file.
pub uninterp spec fn zone_music_rows(bytes: Seq<u8>) -> Option<Seq<ZoneMusicInfo>>;

/// `ZoneMusic::read` of wow_dbc on the bytes of a file, each row taken down to the fields that the
/// library reads. Its rows are named by `zone_music_rows`. The reader is not called on files with a
/// problem: their declared sizes could make it allocate more than the file holds, and a bad
/// string reference makes it index out of bounds.
#[verifier::external_body]
fn parse_zone_music(bytes: &[u8]) -> (r: Result<Vec<ZoneMusicInfo>, DbcError>)
    requires
        dbc_problem(bytes@, 32, 8, [(1, 2), (0, 0), (0, 0), (0, 0)]) is None,
    ensures
        match r {
            Ok(rows) => zone_music_rows(bytes@) == Some(rows@),
            Err(_) => zone_music_rows(bytes@) is None,
        },
{
    let table = ZoneMusic::read(&mut &bytes[..])?;
    Ok(table.rows().iter().map(|row| ZoneMusicInfo {
        id: row.id.id,
        silence_interval_min: row.silence_interval_min,
        silence_interval_max: row.silence_interval_max,
        sounds: row.sounds,
    }).collect())
}

/// Reads the zone music table from the bytes of its file (32-byte records of 8 fields, string
/// field 1).
pub fn read_zone_music(bytes: &[u8]) -> (r: Result<Vec<ZoneMusicInfo>, DbcReadError>)
    ensures
        rows_result(r) == read_outcome(
            dbc_problem(bytes@, 32, 8, [(1, 2), (0, 0), (0, 0), (0, 0)]),
            zone_music_rows(bytes@),
        ),
{
    if let Some(problem) = check_dbc(bytes, 32, 8, [(1, 2), (0, 0), (0, 0), (0, 0)]) {
        return Err(problem);
    }
    match parse_zone_music(bytes) {
        Ok(rows) => Ok(rows),
        Err(_) => Err(DbcReadError::Malformed),
    }
}

/// The rows that the reader of the zone intro music table (ZoneIntroMusicTable.dbc) gives for a
/// file's bytes, with the fields that the library reads; `None` where the reader refuses the file.
pub uninterp spec fn zone_intro_music_rows(bytes: Seq<u8>) -> Option<Seq<ZoneIntroMusic>>;

/// `ZoneIntroMusicTable::read` of wow_dbc on the bytes of a file, each row taken down to the fields
/// that the library reads. Its rows are named by `zone_intro_music_rows`. The reader is not called
/// on files with a problem: their declared sizes could make it allocate more than the file holds,
/// and a bad string reference makes it index out of bounds.
#[verifier::external_body]
fn parse_zone_intro_music(bytes: &[u8]) -> (r: Result<Vec<ZoneIntroMusic>, DbcError>)
    requires
        dbc_problem(bytes@, 20, 5, [(1, 2), (0, 0), (0, 0), (0, 0)]) is None,
    ensures
        match r {
            Ok(rows) => zone_intro_music_rows(bytes@) == Some(rows@),
            Err(_) => zone_intro_music_rows(bytes@) is None,
        },
{
    let table = ZoneIntroMusicTable::read(&mut &bytes[..])?;
    Ok(table.rows().iter().map(|row| ZoneIntroMusic {
        id: row.id.id,
        sound_id: row.sound_id.id,
        min_delay_minutes: row.min_delay_minutes,
    }).collect())
}

/// Reads the zone intro music table from the bytes of its file (20-byte records of 5 fields,
/// string field 1).
pub fn read_zone_intro_music(bytes: &[u8]) -> (r: Result<Vec<ZoneIntroMusic>, DbcReadError>)
    ensures
        rows_result(r) == read_outcome(
            dbc_problem(bytes@, 20, 5, [(1, 2), (0, 0), (0, 0), (0, 0)]),
            zone_intro_music_rows(bytes@),
        ),
{
    if let Some(problem) = check_dbc(bytes, 20, 5, [(1, 2), (0, 0), (0, 0), (0, 0)]) {
        return Err(problem);
    }
    match parse_zone_intro_music(bytes) {
        Ok(rows) => Ok(rows),
        Err(_) => Err(DbcReadError::Malformed),
    }
}

/// The rows that the reader of the sound entries table (SoundEntries.dbc) gives for a file's bytes,
/// with the fields that the library reads; `None` where the reader refuses the file.
pub uninterp spec fn sound_entries_rows(bytes: Seq<u8>) -> Option<Seq<SoundEntry>>;

/// `SoundEntries::read` of wow_dbc on the bytes of a file, each row taken down to the fields that
/// the library reads. Its rows are named by `sound_entries_rows`. The reader is not called on files
/// with a problem: their declared sizes could make it allocate more than the file holds, and a bad
/// string reference makes it index out of bounds.
#[verifier::external_body]
fn parse_sound_entries(bytes: &[u8]) -> (r: Result<Vec<SoundEntry>, DbcError>)
    requires
        dbc_problem(bytes@, 120, 30, [(2, 13), (23, 24), (0, 0), (0, 0)]) is None,
    ensures
        match r {
            Ok(rows) => sound_entries_rows(bytes@) == Some(rows@),
            Err(_) => sound_entries_rows(bytes@) is None,
        },
{
    let table = SoundEntries::read(&mut &bytes[..])?;
    Ok(table.rows().iter().map(|row| SoundEntry {
        id: row.id.id,
        directory_base: row.directory_base.clone(),
        file: row.file.clone(),
        freq: row.freq,
        volume_bits: row.volume_float.to_bits(),
    }).collect())
}

/// Reads the sound entries table from the bytes of its file (120-byte records of 30 fields,
/// string fields 2 to 12 and 23).
pub fn read_sound_entries(bytes: &[u8]) -> (r: Result<Vec<SoundEntry>, DbcReadError>)
    ensures
        rows_result(r) == read_outcome(
            dbc_problem(bytes@, 120, 30, [(2, 13), (23, 24), (0, 0), (0, 0)]),
            sound_entries_rows(bytes@),
        ),
{
    if let Some(problem) = check_dbc(bytes, 120, 30, [(2, 13), (23, 24), (0, 0), (0, 0)]) {
        return Err(problem);
    }
    match parse_sound_entries(bytes) {
        Ok(rows) => Ok(rows),
        Err(_) => Err(DbcReadError::Malformed),
    }
}

/// The rows that the reader of the creature display info table (CreatureDisplayInfo.dbc) gives for
/// a file's bytes, with the fields that the library reads; `None` where the reader refuses the
/// file.
pub uninterp spec fn creature_display_info_rows(bytes: Seq<u8>) -> Option<Seq<CreatureDisplayInfoRow>>;

/// `CreatureDisplayInfo::read` of wow_dbc on the bytes of a file, each row taken down to the fields
/// that the library reads. Its rows are named by `creature_display_info_rows`. The reader is not
/// called on files with a problem: their declared sizes could make it allocate more than the file
/// holds, and a bad string reference makes it index out of bounds.
#[verifier::external_body]
fn parse_creature_display_info(bytes: &[u8]) -> (r: Result<Vec<CreatureDisplayInfoRow>, DbcError>)
    requires
        dbc_problem(bytes@, 64, 16, [(6, 10), (0, 0), (0, 0), (0, 0)]) is None,
    ensures
        match r {
            Ok(rows) => creature_display_info_rows(bytes@) == Some(rows@),
            Err(_) => creature_display_info_rows(bytes@) is None,
        },
{
    let table = CreatureDisplayInfo::read(&mut &bytes[..])?;
    Ok(table.rows().iter().map(|row| CreatureDisplayInfoRow {
        id: row.id.id,
        model_id: row.model_id.id,
        extended_display_info_id: row.extended_display_info_id.id,
        texture_variation: row.texture_variation.clone(),
    }).collect())
}

/// Reads the creature display info table from the bytes of its file (64-byte records of 16
/// fields, string fields 6 to 9).
pub fn read_creature_display_info(bytes: &[u8]) -> (r: Result<
    Vec<CreatureDisplayInfoRow>,
    DbcReadError,
>)
    ensures
        rows_result(r) == read_outcome(
            dbc_problem(bytes@, 64, 16, [(6, 10), (0, 0), (0, 0), (0, 0)]),
            creature_display_info_rows(bytes@),
        ),
{
    if let Some(problem) = check_dbc(bytes, 64, 16, [(6, 10), (0, 0), (0, 0), (0, 0)]) {
        return Err(problem);
    }
    match parse_creature_display_info(bytes) {
        Ok(rows) => Ok(rows),
        Err(_) => Err(DbcReadError::Malformed),
    }
}

/// The rows that the reader of the creature display info extra table (CreatureDisplayInfoExtra.dbc)
/// gives for a file's bytes, with the fields that the library reads; `None` where the reader
/// refuses the file.
pub uninterp spec fn creature_display_info_extra_rows(bytes: Seq<u8>) -> Option<Seq<CreatureDisplayInfoExtra>>;

/// `CreatureDisplayInfoExtraTable::read` of wow_dbc on the bytes of a file, each row taken down to
/// the fields that the library reads. Its rows are named by `creature_display_info_extra_rows`. The
/// reader is not called on files with a problem: their declared sizes could make it allocate more
/// than the file holds, and a bad string reference makes it index out of bounds.
#[verifier::external_body]
fn parse_creature_display_info_extra(bytes: &[u8]) -> (r: Result<
    Vec<CreatureDisplayInfoExtra>,
    DbcError,
>)
    requires
        dbc_problem(bytes@, 84, 21, [(20, 21), (0, 0), (0, 0), (0, 0)]) is None,
    ensures
        match r {
            Ok(rows) => creature_display_info_extra_rows(bytes@) == Some(rows@),
            Err(_) => creature_display_info_extra_rows(bytes@) is None,
        },
{
    let table = CreatureDisplayInfoExtraTable::read(&mut &bytes[..])?;
    Ok(table.rows().iter().map(|row| CreatureDisplayInfoExtra {
        id: row.id.id,
        display_race_id: row.display_race_id.id,
        display_sex_id: row.display_sex_id,
        skin_id: row.skin_id,
        face_id: row.face_id,
        hair_style_id: row.hair_style_id,
        hair_color_id: row.hair_color_id,
        facial_hair_id: row.facial_hair_id,
        n_p_c_item_display: row.n_p_c_item_display,
        bake_name: row.bake_name.clone(),
    }).collect())
}

/// Reads the creature display info extra table from the bytes of its file (84-byte records of
/// 21 fields, string field 20).
pub fn read_creature_display_info_extra(bytes: &[u8]) -> (r: Result<
    Vec<CreatureDisplayInfoExtra>,
    DbcReadError,
>)
    ensures
        rows_result(r) == read_outcome(
            dbc_problem(bytes@, 84, 21, [(20, 21), (0, 0), (0, 0), (0, 0)]),
            creature_display_info_extra_rows(bytes@),
        ),
{
    if let Some(problem) = check_dbc(bytes, 84, 21, [(20, 21), (0, 0), (0, 0), (0, 0)]) {
        return Err(problem);
    }
    match parse_creature_display_info_extra(bytes) {
        Ok(rows) => Ok(rows),
        Err(_) => Err(DbcReadError::Malformed),
    }
}

/// The rows that the reader of the creature model data table (CreatureModelData.dbc) gives for a
/// file's bytes, with the fields that the library reads; `None` where the reader refuses the file.
pub uninterp spec fn creature_model_data_rows(bytes: Seq<u8>) -> Option<Seq<CreatureModelDataRow>>;

/// `CreatureModelData::read` of wow_dbc on the bytes of a file, each row taken down to the fields
/// that the library reads. Its rows are named by `creature_model_data_rows`. The reader is not
/// called on files with a problem: their declared sizes could make it allocate more than the file
/// holds, and a bad string reference makes it index out of bounds.
#[verifier::external_body]
fn parse_creature_model_data(bytes: &[u8]) -> (r: Result<Vec<CreatureModelDataRow>, DbcError>)
    requires
        dbc_problem(bytes@, 112, 28, [(2, 3), (0, 0), (0, 0), (0, 0)]) is None,
    ensures
        match r {
            Ok(rows) => creature_model_data_rows(bytes@) == Some(rows@),
            Err(_) => creature_model_data_rows(bytes@) is None,
        },
{
    let table = CreatureModelData::read(&mut &bytes[..])?;
    Ok(table.rows().iter().map(|row| CreatureModelDataRow {
        id: row.id.id,
        model_name: row.model_name.clone(),
    }).collect())
}

/// Reads the creature model data table from the bytes of its file (112-byte records of 28
/// fields, string field 2).
pub fn read_creature_model_data(bytes: &[u8]) -> (r: Result<
    Vec<CreatureModelDataRow>,
    DbcReadError,
>)
    ensures
        rows_result(r) == read_outcome(
            dbc_problem(bytes@, 112, 28, [(2, 3), (0, 0), (0, 0), (0, 0)]),
            creature_model_data_rows(bytes@),
        ),
{
    if let Some(problem) = check_dbc(bytes, 112, 28, [(2, 3), (0, 0), (0, 0), (0, 0)]) {
        return Err(problem);
    }
    match parse_creature_model_data(bytes) {
        Ok(rows) => Ok(rows),
        Err(_) => Err(DbcReadError::Malformed),
    }
}

/// The rows that the reader of the character sections table (CharSections.dbc) gives for a file's
/// bytes, with the fields that the library reads; `None` where the reader refuses the file.
pub uninterp spec fn char_sections_rows(bytes: Seq<u8>) -> Option<Seq<CharSection>>;

/// `CharSections::read` of wow_dbc on the bytes of a file, each row taken down to the fields that
/// the library reads. Its rows are named by `char_sections_rows`. The reader is not called on files
/// with a problem: their declared sizes could make it allocate more than the file holds, and a bad
/// string reference makes it index out of bounds.
#[verifier::external_body]
fn parse_char_sections(bytes: &[u8]) -> (r: Result<Vec<CharSection>, DbcError>)
    requires
        dbc_problem(bytes@, 40, 10, [(4, 7), (0, 0), (0, 0), (0, 0)]) is None,
    ensures
        match r {
            Ok(rows) => char_sections_rows(bytes@) == Some(rows@),
            Err(_) => char_sections_rows(bytes@) is None,
        },
{
    let table = CharSections::read(&mut &bytes[..])?;
    Ok(table.rows().iter().map(|row| CharSection {
        race_id: row.race_id.id,
        sex_id: row.sex_id,
        base_section: row.base_section,
        texture_name: row.texture_name.clone(),
        variation_index: row.variation_index,
        color_index: row.color_index,
    }).collect())
}

/// Reads the character sections table from the bytes of its file (40-byte records of 10 fields,
/// string fields 4 to 6).
pub fn read_char_sections(bytes: &[u8]) -> (r: Result<Vec<CharSection>, DbcReadError>)
    ensures
        rows_result(r) == read_outcome(
            dbc_problem(bytes@, 40, 10, [(4, 7), (0, 0), (0, 0), (0, 0)]),
            char_sections_rows(bytes@),
        ),
{
    if let Some(problem) = check_dbc(bytes, 40, 10, [(4, 7), (0, 0), (0, 0), (0, 0)]) {
        return Err(problem);
    }
    match parse_char_sections(bytes) {
        Ok(rows) => Ok(rows),
        Err(_) => Err(DbcReadError::Malformed),
    }
}

/// The rows of the character hair geosets table (CharHairGeosets.dbc) in a file: one per record, each with the fields that the
/// library reads, read as little-endian 32-bit values (race, sex, variation and geoset are fields 1 to 4).
pub open spec fn char_hair_geosets_rows_are(b: Seq<u8>, rows: Seq<CharHairGeoset>) -> bool {
    &&& rows.len() == le_u32(b, 4)
    &&& forall|r: int|
        #![trigger rows[r]]
        0 <= r < rows.len() ==> rows[r] == (CharHairGeoset {
            race_id: field_i32(b, 24, r, 1),
            sex_id: field_i32(b, 24, r, 2),
            variation_id: field_i32(b, 24, r, 3),
            geoset_id: field_i32(b, 24, r, 4),
        })
}

/// `CharHairGeosets::read` of wow_dbc on the bytes of a file. The table has no string fields, so the reader
/// reads the header, checks its magic, record size and field count, reads the records and
/// takes each row from its record: where the header is that of the table, the rows are
/// `char_hair_geosets_rows_are`; any other file is refused. The reader is not called on a file whose
/// records do not fit (see `dbc_problem`): it would allocate them before finding out.
#[verifier::external_body]
fn parse_char_hair_geosets(bytes: &[u8]) -> (r: Result<Vec<CharHairGeoset>, DbcError>)
    requires
        dbc_problem(bytes@, 24, 6, [(0, 0), (0, 0), (0, 0), (0, 0)]) is None,
    ensures
        match r {
            Ok(rows) => header_matches(bytes@, 24, 6) && char_hair_geosets_rows_are(bytes@, rows@),
            Err(_) => !header_matches(bytes@, 24, 6),
        },
{
    let table = CharHairGeosets::read(&mut &bytes[..])?;
    Ok(table.rows().iter().map(|row| CharHairGeoset {
        race_id: row.race_id.id,
        sex_id: row.sex_id,
        variation_id: row.variation_id,
        geoset_id: row.geoset_id,
    }).collect())
}

/// Reads the character hair geosets table from the bytes of its file (24-byte records of 6 fields, no string
/// fields): the rows where the header is that of the table and the records fit.
pub fn read_char_hair_geosets(bytes: &[u8]) -> (r: Result<Vec<CharHairGeoset>, DbcReadError>)
    ensures
        match dbc_problem(bytes@, 24, 6, [(0, 0), (0, 0), (0, 0), (0, 0)]) {
            Some(e) => r == Err::<Vec<CharHairGeoset>, DbcReadError>(e),
            None => if header_matches(bytes@, 24, 6) {
                r matches Ok(rows) && char_hair_geosets_rows_are(bytes@, rows@)
            } else {
                r == Err::<Vec<CharHairGeoset>, DbcReadError>(DbcReadError::Malformed)
            },
        },
{
    if let Some(problem) = check_dbc(bytes, 24, 6, [(0, 0), (0, 0), (0, 0), (0, 0)]) {
        return Err(problem);
    }
    match parse_char_hair_geosets(bytes) {
        Ok(rows) => Ok(rows),
        Err(_) => Err(DbcReadError::Malformed),
    }
}

/// The rows of the character facial hair styles table (CharacterFacialHairStyles.dbc) in a file: one per record, each with the fields that the
/// library reads, read as little-endian 32-bit values (race, sex and variation are fields 0 to 2, the five geosets fields 3 to 7).
pub open spec fn facial_hair_styles_rows_are(b: Seq<u8>, rows: Seq<FacialHairStyle>) -> bool {
    &&& rows.len() == le_u32(b, 4)
    &&& forall|r: int|
        #![trigger rows[r]]
        0 <= r < rows.len() ==> {
            &&& rows[r].race_id == field_i32(b, 32, r, 0)
            &&& rows[r].sex_id == field_i32(b, 32, r, 1)
            &&& rows[r].variation_id == field_i32(b, 32, r, 2)
            &&& rows[r].geoset@ == fields_i32(b, 32, r, 3, 5)
        }
}

/// `CharacterFacialHairStyles::read` of wow_dbc on the bytes of a file. The table has no string fields, so the reader
/// reads the header, checks its magic, record size and field count, reads the records and
/// takes each row from its record: where the header is that of the table, the rows are
/// `facial_hair_styles_rows_are`; any other file is refused. The reader is not called on a file whose
/// records do not fit (see `dbc_problem`): it would allocate them before finding out.
#[verifier::external_body]
fn parse_facial_hair_styles(bytes: &[u8]) -> (r: Result<Vec<FacialHairStyle>, DbcError>)
    requires
        dbc_problem(bytes@, 32, 8, [(0, 0), (0, 0), (0, 0), (0, 0)]) is None,
    ensures
        match r {
            Ok(rows) => header_matches(bytes@, 32, 8) && facial_hair_styles_rows_are(bytes@, rows@),
            Err(_) => !header_matches(bytes@, 32, 8),
        },
{
    let table = CharacterFacialHairStyles::read(&mut &bytes[..])?;
    Ok(table.rows().iter().map(|row| FacialHairStyle {
        race_id: row.race_id.id,
        sex_id: row.sex_id,
        variation_id: row.variation_id,
        geoset: row.geoset,
    }).collect())
}

/// Reads the character facial hair styles table from the bytes of its file (32-byte records of 8 fields, no string
/// fields): the rows where the header is that of the table and the records fit.
pub fn read_facial_hair_styles(bytes: &[u8]) -> (r: Result<Vec<FacialHairStyle>, DbcReadError>)
    ensures
        match dbc_problem(bytes@, 32, 8, [(0, 0), (0, 0), (0, 0), (0, 0)]) {
            Some(e) => r == Err::<Vec<FacialHairStyle>, DbcReadError>(e),
            None => if header_matches(bytes@, 32, 8) {
                r matches Ok(rows) && facial_hair_styles_rows_are(bytes@, rows@)
            } else {
                r == Err::<Vec<FacialHairStyle>, DbcReadError>(DbcReadError::Malformed)
            },
        },
{
    if let Some(problem) = check_dbc(bytes, 32, 8, [(0, 0), (0, 0), (0, 0), (0, 0)]) {
        return Err(problem);
    }
    match parse_facial_hair_styles(bytes) {
        Ok(rows) => Ok(rows),
        Err(_) => Err(DbcReadError::Malformed),
    }
}

/// The rows that the reader of the item display info table (ItemDisplayInfo.dbc) gives for a file's
/// bytes, with the fields that the library reads; `None` where the reader refuses the file.
pub uninterp spec fn item_display_info_rows(bytes: Seq<u8>) -> Option<Seq<ItemDisplayInfoRow>>;

/// `ItemDisplayInfo::read` of wow_dbc on the bytes of a file, each row taken down to the fields
/// that the library reads. Its rows are named by `item_display_info_rows`. The reader is not called
/// on files with a problem: their declared sizes could make it allocate more than the file holds,
/// and a bad string reference makes it index out of bounds.
#[verifier::external_body]
fn parse_item_display_info(bytes: &[u8]) -> (r: Result<Vec<ItemDisplayInfoRow>, DbcError>)
    requires
        dbc_problem(bytes@, 100, 25, [(1, 7), (15, 23), (0, 0), (0, 0)]) is None,
    ensures
        match r {
            Ok(rows) => item_display_info_rows(bytes@) == Some(rows@),
            Err(_) => item_display_info_rows(bytes@) is None,
        },
{
    let table = ItemDisplayInfo::read(&mut &bytes[..])?;
    Ok(table.rows().iter().map(|row| ItemDisplayInfoRow {
        id: row.id.id,
        geoset_group: row.geoset_group,
    }).collect())
}

/// Reads the item display info table from the bytes of its file (100-byte records of 25 fields,
/// string fields 1 to 6 and 15 to 22).
pub fn read_item_display_info(bytes: &[u8]) -> (r: Result<Vec<ItemDisplayInfoRow>, DbcReadError>)
    ensures
        rows_result(r) == read_outcome(
            dbc_problem(bytes@, 100, 25, [(1, 7), (15, 23), (0, 0), (0, 0)]),
            item_display_info_rows(bytes@),
        ),
{
    if let Some(problem) = check_dbc(bytes, 100, 25, [(1, 7), (15, 23), (0, 0), (0, 0)]) {
        return Err(problem);
    }
    match parse_item_display_info(bytes) {
        Ok(rows) => Ok(rows),
        Err(_) => Err(DbcReadError::Malformed),
    }
}

/// The rows of the light integer band table (LightIntBand.dbc) in a file: one per record, each with the fields that the
/// library reads, read as little-endian 32-bit values (the count is field 1, the sixteen times fields 2 to 17, the sixteen values fields 18 to 33).
pub open spec fn light_int_band_rows_are(b: Seq<u8>, rows: Seq<LightBandRow<i32>>) -> bool {
    &&& rows.len() == le_u32(b, 4)
    &&& forall|r: int|
        #![trigger rows[r]]
        0 <= r < rows.len() ==> {
            &&& rows[r].num == field_i32(b, 136, r, 1)
            &&& rows[r].time@ == fields_i32(b, 136, r, 2, 16)
            &&& rows[r].data@ == fields_i32(b, 136, r, 18, 16)
        }
}

/// `LightIntBand::read` of wow_dbc on the bytes of a file. The table has no string fields, so the reader
/// reads the header, checks its magic, record size and field count, reads the records and
/// takes each row from its record: where the header is that of the table, the rows are
/// `light_int_band_rows_are`; any other file is refused. The reader is not called on a file whose
/// records do not fit (see `dbc_problem`): it would allocate them before finding out.
#[verifier::external_body]
fn parse_light_int_band(bytes: &[u8]) -> (r: Result<Vec<LightBandRow<i32>>, DbcError>)
    requires
        dbc_problem(bytes@, 136, 34, [(0, 0), (0, 0), (0, 0), (0, 0)]) is None,
    ensures
        match r {
            Ok(rows) => header_matches(bytes@, 136, 34) && light_int_band_rows_are(bytes@, rows@),
            Err(_) => !header_matches(bytes@, 136, 34),
        },
{
    let table = LightIntBand::read(&mut &bytes[..])?;
    Ok(table.rows().iter().map(|row| LightBandRow {
        num: row.num,
        time: row.time,
        data: row.data,
    }).collect())
}

/// Reads the light integer band table from the bytes of its file (136-byte records of 34 fields, no string
/// fields): the rows where the header is that of the table and the records fit.
pub fn read_light_int_band(bytes: &[u8]) -> (r: Result<Vec<LightBandRow<i32>>, DbcReadError>)
    ensures
        match dbc_problem(bytes@, 136, 34, [(0, 0), (0, 0), (0, 0), (0, 0)]) {
            Some(e) => r == Err::<Vec<LightBandRow<i32>>, DbcReadError>(e),
            None => if header_matches(bytes@, 136, 34) {
                r matches Ok(rows) && light_int_band_rows_are(bytes@, rows@)
            } else {
                r == Err::<Vec<LightBandRow<i32>>, DbcReadError>(DbcReadError::Malformed)
            },
        },
{
    if let Some(problem) = check_dbc(bytes, 136, 34, [(0, 0), (0, 0), (0, 0), (0, 0)]) {
        return Err(problem);
    }
    match parse_light_int_band(bytes) {
        Ok(rows) => Ok(rows),
        Err(_) => Err(DbcReadError::Malformed),
    }
}

/// The rows that the reader of the map table (Map.dbc) gives for a file's bytes, with the fields
/// that the library reads; `None` where the reader refuses the file.
pub uninterp spec fn map_rows(bytes: Seq<u8>) -> Option<Seq<MapRow>>;

/// `Map::read` of wow_dbc on the bytes of a file, each row taken down to the fields that the
/// library reads. Its rows are named by `map_rows`. The reader is not called on files with a
/// problem: their declared sizes could make it allocate more than the file holds, and a bad
/// string reference makes it index out of bounds.
#[verifier::external_body]
fn parse_map(bytes: &[u8]) -> (r: Result<Vec<MapRow>, DbcError>)
    requires
        dbc_problem(bytes@, 264, 66, [(1, 2), (5, 21), (23, 39), (40, 56)]) is None,
    ensures
        match r {
            Ok(rows) => map_rows(bytes@) == Some(rows@),
            Err(_) => map_rows(bytes@) is None,
        },
{
    let table = MapTable::read(&mut &bytes[..])?;
    Ok(table.rows().iter().map(|row| MapRow {
        id: row.id.id,
        directory: row.directory.clone(),
    }).collect())
}

/// Reads the map table from the bytes of its file (264-byte records of 66 fields, string
/// fields 1, 5 to 20, 23 to 38 and 40 to 55).
pub fn read_map(bytes: &[u8]) -> (r: Result<Vec<MapRow>, DbcReadError>)
    ensures
        rows_result(r) == read_outcome(
            dbc_problem(bytes@, 264, 66, [(1, 2), (5, 21), (23, 39), (40, 56)]),
            map_rows(bytes@),
        ),
{
    if let Some(problem) = check_dbc(bytes, 264, 66, [(1, 2), (5, 21), (23, 39), (40, 56)]) {
        return Err(problem);
    }
    match parse_map(bytes) {
        Ok(rows) => Ok(rows),
        Err(_) => Err(DbcReadError::Malformed),
    }
}

/// The rows of the light table (Light.dbc) in a file: one per record, each with the fields that the
/// library reads, read as little-endian 32-bit values (id and map are fields 0 and 1, the position fields 2 to 4, the falloff fields 5 and 6, the eight parameter sets fields 7 to 14).
pub open spec fn light_rows_are(b: Seq<u8>, rows: Seq<LightRow>) -> bool {
    &&& rows.len() == le_u32(b, 4)
    &&& forall|r: int|
        #![trigger rows[r]]
        0 <= r < rows.len() ==> {
            &&& rows[r].id == field_i32(b, 60, r, 0)
            &&& rows[r].continent_id == field_i32(b, 60, r, 1)
            &&& rows[r].game_coords_bits@ == fields_u32(b, 60, r, 2, 3)
            &&& rows[r].game_falloff_start_bits == field_u32(b, 60, r, 5)
            &&& rows[r].game_falloff_end_bits == field_u32(b, 60, r, 6)
            &&& rows[r].light_params_id@ == fields_i32(b, 60, r, 7, 8)
        }
}

/// `LightTable::read` of wow_dbc on the bytes of a file. The table has no string fields, so the reader
/// reads the header, checks its magic, record size and field count, reads the records and
/// takes each row from its record: where the header is that of the table, the rows are
/// `light_rows_are`; any other file is refused. The reader is not called on a file whose
/// records do not fit (see `dbc_problem`): it would allocate them before finding out.
#[verifier::external_body]
fn parse_light(bytes: &[u8]) -> (r: Result<Vec<LightRow>, DbcError>)
    requires
        dbc_problem(bytes@, 60, 15, [(0, 0), (0, 0), (0, 0), (0, 0)]) is None,
    ensures
        match r {
            Ok(rows) => header_matches(bytes@, 60, 15) && light_rows_are(bytes@, rows@),
            Err(_) => !header_matches(bytes@, 60, 15),
        },
{
    let table = LightTable::read(&mut &bytes[..])?;
    Ok(table.rows().iter().map(|row| LightRow {
        id: row.id.id,
        continent_id: row.continent_id.id,
        game_coords_bits: row.game_coords.map(|c| c.to_bits()),
        game_falloff_start_bits: row.game_falloff_start.to_bits(),
        game_falloff_end_bits: row.game_falloff_end.to_bits(),
        light_params_id: row.light_params_id,
    }).collect())
}

/// Reads the light table from the bytes of its file (60-byte records of 15 fields, no string
/// fields): the rows where the header is that of the table and the records fit.
pub fn read_light(bytes: &[u8]) -> (r: Result<Vec<LightRow>, DbcReadError>)
    ensures
        match dbc_problem(bytes@, 60, 15, [(0, 0), (0, 0), (0, 0), (0, 0)]) {
            Some(e) => r == Err::<Vec<LightRow>, DbcReadError>(e),
            None => if header_matches(bytes@, 60, 15) {
                r matches Ok(rows) && light_rows_are(bytes@, rows@)
            } else {
                r == Err::<Vec<LightRow>, DbcReadError>(DbcReadError::Malformed)
            },
        },
{
    if let Some(problem) = check_dbc(bytes, 60, 15, [(0, 0), (0, 0), (0, 0), (0, 0)]) {
        return Err(problem);
    }
    match parse_light(bytes) {
        Ok(rows) => Ok(rows),
        Err(_) => Err(DbcReadError::Malformed),
    }
}

/// The rows of the light parameters table (LightParams.dbc) in a file: one per record, each with the fields that the
/// library reads, read as little-endian 32-bit values (the nine fields in the order of the row).
pub open spec fn light_params_rows_are(b: Seq<u8>, rows: Seq<LightParamsRow>) -> bool {
    &&& rows.len() == le_u32(b, 4)
    &&& forall|r: int|
        #![trigger rows[r]]
        0 <= r < rows.len() ==> rows[r] == (LightParamsRow {
            id: field_i32(b, 36, r, 0),
            highlight_sky: field_i32(b, 36, r, 1),
            light_skybox_id: field_i32(b, 36, r, 2),
            glow_bits: field_u32(b, 36, r, 3),
            water_shallow_alpha_bits: field_u32(b, 36, r, 4),
            water_deep_alpha_bits: field_u32(b, 36, r, 5),
            ocean_shallow_alpha_bits: field_u32(b, 36, r, 6),
            ocean_deep_alpha_bits: field_u32(b, 36, r, 7),
            flags: field_i32(b, 36, r, 8),
        })
}

/// `LightParams::read` of wow_dbc on the bytes of a file. The table has no string fields, so the reader
/// reads the header, checks its magic, record size and field count, reads the records and
/// takes each row from its record: where the header is that of the table, the rows are
/// `light_params_rows_are`; any other file is refused. The reader is not called on a file whose
/// records do not fit (see `dbc_problem`): it would allocate them before finding out.
#[verifier::external_body]
fn parse_light_params(bytes: &[u8]) -> (r: Result<Vec<LightParamsRow>, DbcError>)
    requires
        dbc_problem(bytes@, 36, 9, [(0, 0), (0, 0), (0, 0), (0, 0)]) is None,
    ensures
        match r {
            Ok(rows) => header_matches(bytes@, 36, 9) && light_params_rows_are(bytes@, rows@),
            Err(_) => !header_matches(bytes@, 36, 9),
        },
{
    let table = LightParams::read(&mut &bytes[..])?;
    Ok(table.rows().iter().map(|row| LightParamsRow {
        id: row.id.id,
        highlight_sky: row.highlight_sky,
        light_skybox_id: row.light_skybox_id.id,
        glow_bits: row.glow.to_bits(),
        water_shallow_alpha_bits: row.water_shallow_alpha.to_bits(),
        water_deep_alpha_bits: row.water_deep_alpha.to_bits(),
        ocean_shallow_alpha_bits: row.ocean_shallow_alpha.to_bits(),
        ocean_deep_alpha_bits: row.ocean_deep_alpha.to_bits(),
        flags: row.flags,
    }).collect())
}

/// Reads the light parameters table from the bytes of its file (36-byte records of 9 fields, no string
/// fields): the rows where the header is that of the table and the records fit.
pub fn read_light_params(bytes: &[u8]) -> (r: Result<Vec<LightParamsRow>, DbcReadError>)
    ensures
        match dbc_problem(bytes@, 36, 9, [(0, 0), (0, 0), (0, 0), (0, 0)]) {
            Some(e) => r == Err::<Vec<LightParamsRow>, DbcReadError>(e),
            None => if header_matches(bytes@, 36, 9) {
                r matches Ok(rows) && light_params_rows_are(bytes@, rows@)
            } else {
                r == Err::<Vec<LightParamsRow>, DbcReadError>(DbcReadError::Malformed)
            },
        },
{
    if let Some(problem) = check_dbc(bytes, 36, 9, [(0, 0), (0, 0), (0, 0), (0, 0)]) {
        return Err(problem);
    }
    match parse_light_params(bytes) {
        Ok(rows) => Ok(rows),
        Err(_) => Err(DbcReadError::Malformed),
    }
}

/// The rows that the reader of the light skybox table (LightSkybox.dbc) gives for a file's bytes,
/// with the fields that the library reads; `None` where the reader refuses the file.
pub uninterp spec fn light_skybox_rows(bytes: Seq<u8>) -> Option<Seq<LightSkyboxRow>>;

/// `LightSkybox::read` of wow_dbc on the bytes of a file, each row taken down to the fields that
/// the library reads (floating point values as their bits). Its rows are named by
/// `light_skybox_rows`. The reader is not called on files with a problem: their declared sizes
/// could make it allocate more than the file holds, and a bad string reference makes it index out
/// of bounds.
#[verifier::external_body]
fn parse_light_skybox(bytes: &[u8]) -> (r: Result<Vec<LightSkyboxRow>, DbcError>)
    requires
        dbc_problem(bytes@, 12, 3, [(1, 2), (0, 0), (0, 0), (0, 0)]) is None,
    ensures
        match r {
            Ok(rows) => light_skybox_rows(bytes@) == Some(rows@),
            Err(_) => light_skybox_rows(bytes@) is None,
        },
{
    let table = LightSkybox::read(&mut &bytes[..])?;
    Ok(table.rows().iter().map(|row| LightSkyboxRow {
        id: row.id.id,
        name: row.name.clone(),
    }).collect())
}

/// Reads the light skybox table from the bytes of its file (12-byte records of 3 fields, string
/// field 1).
pub fn read_light_skybox(bytes: &[u8]) -> (r: Result<Vec<LightSkyboxRow>, DbcReadError>)
    ensures
        rows_result(r) == read_outcome(
            dbc_problem(bytes@, 12, 3, [(1, 2), (0, 0), (0, 0), (0, 0)]),
            light_skybox_rows(bytes@),
        ),
{
    if let Some(problem) = check_dbc(bytes, 12, 3, [(1, 2), (0, 0), (0, 0), (0, 0)]) {
        return Err(problem);
    }
    match parse_light_skybox(bytes) {
        Ok(rows) => Ok(rows),
        Err(_) => Err(DbcReadError::Malformed),
    }
}

/// The rows of the light float band table (LightFloatBand.dbc) in a file: one per record, each with the fields that the
/// library reads, read as little-endian 32-bit values (the count is field 1, the sixteen times fields 2 to 17, the sixteen values (as bits) fields 18 to 33).
pub open spec fn light_float_band_rows_are(b: Seq<u8>, rows: Seq<LightBandRow<u32>>) -> bool {
    &&& rows.len() == le_u32(b, 4)
    &&& forall|r: int|
        #![trigger rows[r]]
        0 <= r < rows.len() ==> {
            &&& rows[r].num == field_i32(b, 136, r, 1)
            &&& rows[r].time@ == fields_i32(b, 136, r, 2, 16)
            &&& rows[r].data@ == fields_u32(b, 136, r, 18, 16)
        }
}

/// `LightFloatBand::read` of wow_dbc on the bytes of a file. The table has no string fields, so the reader
/// reads the header, checks its magic, record size and field count, reads the records and
/// takes each row from its record: where the header is that of the table, the rows are
/// `light_float_band_rows_are`; any other file is refused. The reader is not called on a file whose
/// records do not fit (see `dbc_problem`): it would allocate them before finding out.
#[verifier::external_body]
fn parse_light_float_band(bytes: &[u8]) -> (r: Result<Vec<LightBandRow<u32>>, DbcError>)
    requires
        dbc_problem(bytes@, 136, 34, [(0, 0), (0, 0), (0, 0), (0, 0)]) is None,
    ensures
        match r {
            Ok(rows) => header_matches(bytes@, 136, 34) && light_float_band_rows_are(bytes@, rows@),
            Err(_) => !header_matches(bytes@, 136, 34),
        },
{
    let table = LightFloatBand::read(&mut &bytes[..])?;
    Ok(table.rows().iter().map(|row| LightBandRow {
        num: row.num,
        time: row.time,
        data: row.data.map(|v| v.to_bits()),
    }).collect())
}

/// Reads the light float band table from the bytes of its file (136-byte records of 34 fields, no string
/// fields): the rows where the header is that of the table and the records fit.
pub fn read_light_float_band(bytes: &[u8]) -> (r: Result<Vec<LightBandRow<u32>>, DbcReadError>)
    ensures
        match dbc_problem(bytes@, 136, 34, [(0, 0), (0, 0), (0, 0), (0, 0)]) {
            Some(e) => r == Err::<Vec<LightBandRow<u32>>, DbcReadError>(e),
            None => if header_matches(bytes@, 136, 34) {
                r matches Ok(rows) && light_float_band_rows_are(bytes@, rows@)
            } else {
                r == Err::<Vec<LightBandRow<u32>>, DbcReadError>(DbcReadError::Malformed)
            },
        },
{
    if let Some(problem) = check_dbc(bytes, 136, 34, [(0, 0), (0, 0), (0, 0), (0, 0)]) {
        return Err(problem);
    }
    match parse_light_float_band(bytes) {
        Ok(rows) => Ok(rows),
        Err(_) => Err(DbcReadError::Malformed),
    }
}

} // verus!
