//! The assets of an album, where their files are, and what is recorded of them.

use vstd::prelude::*;

use crate::datetime::DateTime;
use crate::metadata;
use crate::metadata::TimestampError;
use crate::offset::Offset;
use crate::text;

verus! {

/// What the server tells of an asset.
#[derive(Debug, PartialEq, Eq)]
pub struct AssetDetail {
    pub id: String,
    /// The path of the file as the server sees it.
    pub original_path: String,
    pub original_filename: String,
    pub tags: Vec<String>,
}

/// What is recorded of an asset.
#[derive(Debug, PartialEq, Eq)]
pub struct AssetRecord {
    pub id: String,
    pub original_path: String,
    pub tags: Vec<String>,
}

/// The record of an album.
#[derive(Debug, PartialEq, Eq)]
pub struct Manifest {
    pub assets: Vec<AssetRecord>,
}

/// What was found where the file of an asset should be.
#[derive(Debug, PartialEq, Eq)]
pub enum HostFile {
    /// There is no such file.
    Missing,
    /// There is one, but it could not be read.
    Unreadable,
    /// The contents of the file.
    Contents(Vec<u8>),
}

/// What is recorded of an asset.
pub open spec fn record_of(detail: AssetDetail) -> AssetRecord {
    AssetRecord { id: detail.id, original_path: detail.original_path, tags: detail.tags }
}

/// What is recorded of assets: one entry for each, in their order.
pub open spec fn records_of(details: Seq<AssetDetail>) -> Seq<AssetRecord> {
    details.map_values(|detail: AssetDetail| record_of(detail))
}

/// The record of the given assets: one entry for each, in their order.
pub fn build_manifest(details: Vec<AssetDetail>) -> (r: Manifest)
    ensures
        r.assets@ == records_of(details@),
        r.assets@.len() == details@.len(),
        forall|i: int|
            0 <= i < details@.len() ==> (#[trigger] r.assets@[i]).id == details@[i].id
                && r.assets@[i].original_path == details@[i].original_path && r.assets@[i].tags
                == details@[i].tags,
{
    let mut assets: Vec<AssetRecord> = Vec::new();
    for detail in it: details
        invariant
            it.seq() == details@,
            assets@.len() == it.index(),
            forall|i: int| 0 <= i < it.index() ==> #[trigger] assets@[i] == record_of(details@[i]),
    {
        assets.push(
            AssetRecord {
                id: detail.id,
                original_path: detail.original_path,
                tags: detail.tags,
            },
        );
    }
    assert(assets@ =~= records_of(details@));
    Manifest { assets }
}

/// The line that tells how many assets were recorded, and where.
pub fn manifest_line(manifest: &Manifest, manifest_path: &str) -> (r: String)
    ensures
        r@ == "\nWrote "@ + text::decimal(manifest.assets@.len()) + " assets to "@
            + manifest_path@,
{
    let mut r = "\nWrote ".to_owned();
    text::append_decimal(&mut r, manifest.assets.len() as u64);
    r.append(" assets to ");
    r.append(manifest_path);
    r
}

fn chars_of(s: &str) -> (r: Vec<char>)
    ensures
        r@ == s@,
{
    let mut r: Vec<char> = Vec::new();
    for c in it: s.chars()
        invariant
            it.seq() == s@,
            r@.len() == it.index(),
            forall|i: int| 0 <= i < it.index() ==> #[trigger] r@[i] == s@[i],
    {
        r.push(c);
    }
    assert(r@ =~= s@);
    r
}

/// The path on this machine of a file whose path begins with a prefix that
/// another takes the place of here.
pub open spec fn mapped_path(
    container_prefix: Seq<char>,
    host_prefix: Seq<char>,
    path: Seq<char>,
) -> Option<Seq<char>> {
    if container_prefix.is_prefix_of(path) {
        Some(host_prefix + path.skip(container_prefix.len() as int))
    } else {
        None
    }
}

/// The path on this machine of an asset's file, if the asset lies under the
/// given prefix.
pub fn host_path(container_prefix: &str, host_prefix: &str, asset: &AssetDetail) -> (r: Option<
    String,
>)
    ensures
        match r {
            Some(path) => mapped_path(container_prefix@, host_prefix@, asset.original_path@)
                == Some(path@),
            None => mapped_path(container_prefix@, host_prefix@, asset.original_path@) is None,
        },
        r is Some <==> container_prefix@.is_prefix_of(asset.original_path@),
        r matches Some(path) ==> path@ == host_prefix@ + asset.original_path@.skip(
            container_prefix@.len() as int,
        ),
{
    let prefix = chars_of(container_prefix);
    let path = chars_of(asset.original_path.as_str());
    if prefix.len() > path.len() {
        return None;
    }
    for i in 0..prefix.len()
        invariant
            prefix@.len() <= path@.len(),
            forall|j: int| 0 <= j < i ==> prefix@[j] == path@[j],
            prefix@ == container_prefix@,
            path@ == asset.original_path@,
    {
        if prefix[i] != path[i] {
            return None;
        }
    }
    let rest = asset.original_path.as_str().substring_char(prefix.len(), path.len());
    let mut mapped = host_prefix.to_owned();
    mapped.append(rest);
    assert(container_prefix@ =~= path@.subrange(0, prefix@.len() as int));
    assert(mapped@ =~= host_prefix@ + path@.skip(prefix@.len() as int));
    Some(mapped)
}

/// What is said of an asset that lies under the prefix but has no file.
pub open spec fn missing_file_line(
    container_prefix: Seq<char>,
    host_prefix: Seq<char>,
    asset: AssetDetail,
    file: HostFile,
) -> Option<Seq<char>> {
    match mapped_path(container_prefix, host_prefix, asset.original_path@) {
        Some(path) => if file is Missing {
            Some(
                " !! No file found for "@ + asset.original_filename@ + ", filepath: "@ + path,
            )
        } else {
            None
        },
        None => None,
    }
}

/// What is said of an asset that lies under the prefix but has no file.
pub fn missing_file_notice(
    container_prefix: &str,
    host_prefix: &str,
    asset: &AssetDetail,
    file: &HostFile,
) -> (r: Option<String>)
    ensures
        match r {
            Some(line) => missing_file_line(container_prefix@, host_prefix@, *asset, *file)
                == Some(line@),
            None => missing_file_line(container_prefix@, host_prefix@, *asset, *file) is None,
        },
{
    match host_path(container_prefix, host_prefix, asset) {
        Some(path) => match file {
            HostFile::Missing => {
                let mut line = " !! No file found for ".to_owned();
                line.append(asset.original_filename.as_str());
                line.append(", filepath: ");
                line.append(path.as_str());
                Some(line)
            },
            _ => None,
        },
        None => None,
    }
}

/// The moment that an asset gives, whose file is as found.
pub open spec fn original_timestamp(
    container_prefix: Seq<char>,
    path: Seq<char>,
    file: HostFile,
) -> Result<(DateTime, Option<Offset>), TimestampError> {
    if !container_prefix.is_prefix_of(path) {
        Err(TimestampError::OutsidePrefix)
    } else {
        match file {
            HostFile::Missing => Err(TimestampError::NoFile),
            HostFile::Unreadable => Err(TimestampError::UnreadableFile),
            HostFile::Contents(contents) => metadata::contents_timestamp(contents@),
        }
    }
}

/// The moment at which an asset was taken, and its offset. `file` is what was
/// found at the asset's path on this machine.
pub fn get_original_timestamp(
    container_prefix: &str,
    host_prefix: &str,
    asset: &AssetDetail,
    file: &HostFile,
) -> (r: Result<(DateTime, Option<Offset>), TimestampError>)
    ensures
        r == original_timestamp(container_prefix@, asset.original_path@, *file),
{
    match host_path(container_prefix, host_prefix, asset) {
        None => Err(TimestampError::OutsidePrefix),
        Some(_) => match file {
            HostFile::Missing => Err(TimestampError::NoFile),
            HostFile::Unreadable => Err(TimestampError::UnreadableFile),
            HostFile::Contents(contents) => metadata::timestamp_from_contents(
                contents.as_slice(),
            ),
        },
    }
}

/// What is said of an asset that gives no moment, where the words are not
/// those of the system or of the metadata's parser.
pub open spec fn timestamp_error_text(error: TimestampError, asset: AssetDetail) -> Option<
    Seq<char>,
> {
    match error {
        TimestampError::OutsidePrefix => Some(
            " !! "@ + asset.original_filename@
                + " doesn't start with the given container prefix, original_path: "@
                + asset.original_path@,
        ),
        TimestampError::NoFile => Some("no file found"@),
        TimestampError::UnreadableFile => None,
        TimestampError::UnreadableMetadata => None,
        TimestampError::NoField => Some("no DateTimeOriginal field found"@),
        TimestampError::UnsupportedType => Some("unsupported value type for DateTimeOriginal"@),
        TimestampError::NoValue => Some("no value for DateTimeOriginal"@),
    }
}

/// Says why an asset gives no moment, where the words are not those of the
/// system or of the metadata's parser.
pub fn timestamp_error_message(error: TimestampError, asset: &AssetDetail) -> (r: Option<String>)
    ensures
        match r {
            Some(message) => timestamp_error_text(error, *asset) == Some(message@),
            None => timestamp_error_text(error, *asset) is None,
        },
{
    match error {
        TimestampError::OutsidePrefix => {
            let mut message = " !! ".to_owned();
            message.append(asset.original_filename.as_str());
            message.append(" doesn't start with the given container prefix, original_path: ");
            message.append(asset.original_path.as_str());
            Some(message)
        },
        TimestampError::NoFile => Some("no file found".to_owned()),
        TimestampError::UnreadableFile => None,
        TimestampError::UnreadableMetadata => None,
        TimestampError::NoField => Some("no DateTimeOriginal field found".to_owned()),
        TimestampError::UnsupportedType => Some(
            "unsupported value type for DateTimeOriginal".to_owned(),
        ),
        TimestampError::NoValue => Some("no value for DateTimeOriginal".to_owned()),
    }
}

/// A mapped path begins with the prefix that took the other's place, and
/// mapping it back gives the path that it was made of.
pub proof fn law_mapped_path_maps_back(
    container_prefix: Seq<char>,
    host_prefix: Seq<char>,
    path: Seq<char>,
)
    requires
        container_prefix.is_prefix_of(path),
    ensures
        mapped_path(container_prefix, host_prefix, path) is Some,
        host_prefix.is_prefix_of(mapped_path(container_prefix, host_prefix, path)->Some_0),
        mapped_path(
            host_prefix,
            container_prefix,
            mapped_path(container_prefix, host_prefix, path)->Some_0,
        ) == Some(path),
{
    let mapped = host_prefix + path.skip(container_prefix.len() as int);
    assert(host_prefix =~= mapped.subrange(0, host_prefix.len() as int));
    assert(container_prefix + mapped.skip(host_prefix.len() as int) =~= path);
}

/// What stands behind the prefix stays as it is: a path that is the prefix
/// followed by anything is mapped to the other prefix followed by the same; any
/// other path is not mapped.
pub proof fn law_rest_of_the_path_stays(
    container_prefix: Seq<char>,
    host_prefix: Seq<char>,
    rest: Seq<char>,
    path: Seq<char>,
)
    ensures
        mapped_path(container_prefix, host_prefix, container_prefix + rest) == Some(
            host_prefix + rest,
        ),
        mapped_path(container_prefix, host_prefix, path) is Some <==> container_prefix.len()
            <= path.len() && forall|i: int|
            0 <= i < container_prefix.len() ==> #[trigger] path[i] == container_prefix[i],
{
    let whole = container_prefix + rest;
    assert(container_prefix =~= whole.subrange(0, container_prefix.len() as int));
    assert(whole.skip(container_prefix.len() as int) =~= rest);
    if container_prefix.len() <= path.len() && forall|i: int|
        0 <= i < container_prefix.len() ==> #[trigger] path[i] == container_prefix[i] {
        assert(container_prefix =~= path.subrange(0, container_prefix.len() as int));
    }
}

/// A record tells of its asset the id, the path and the tags, each as it is,
/// and there is one record for each asset, at its place.
pub proof fn law_records_hold_what_the_assets_hold(details: Seq<AssetDetail>)
    ensures
        records_of(details).len() == details.len(),
        forall|i: int|
            0 <= i < details.len() ==> (#[trigger] records_of(details)[i]).id == details[i].id
                && records_of(details)[i].original_path == details[i].original_path && records_of(
                details,
            )[i].tags == details[i].tags,
{
}

/// Only an asset under the prefix whose file can be read gives a moment: that
/// of the file's contents. Every other one gives the error that tells why not,
/// and the prefix is looked at first.
pub proof fn law_file_decides_the_moment(
    container_prefix: Seq<char>,
    rest: Seq<char>,
    path: Seq<char>,
    contents: Vec<u8>,
    file: HostFile,
)
    ensures
        original_timestamp(container_prefix, container_prefix + rest, HostFile::Contents(contents))
            == metadata::contents_timestamp(contents@),
        original_timestamp(container_prefix, container_prefix + rest, HostFile::Missing) == Err::<
            (DateTime, Option<Offset>),
            TimestampError,
        >(TimestampError::NoFile),
        original_timestamp(container_prefix, container_prefix + rest, HostFile::Unreadable)
            == Err::<(DateTime, Option<Offset>), TimestampError>(TimestampError::UnreadableFile),
        !container_prefix.is_prefix_of(path) ==> original_timestamp(container_prefix, path, file)
            == Err::<(DateTime, Option<Offset>), TimestampError>(TimestampError::OutsidePrefix),
{
    let whole = container_prefix + rest;
    assert(container_prefix =~= whole.subrange(0, container_prefix.len() as int));
}

/// A missing file is told with the asset's file name and with the path on this
/// machine, and only of an asset under the prefix; of no other file is anything
/// told.
pub proof fn law_missing_files_are_told(
    container_prefix: Seq<char>,
    host_prefix: Seq<char>,
    rest: Seq<char>,
    asset: AssetDetail,
    file: HostFile,
)
    ensures
        asset.original_path@ == container_prefix + rest ==> missing_file_line(
            container_prefix,
            host_prefix,
            asset,
            HostFile::Missing,
        ) == Some(
            " !! No file found for "@ + asset.original_filename@ + ", filepath: "@ + (host_prefix
                + rest),
        ),
        !container_prefix.is_prefix_of(asset.original_path@) ==> missing_file_line(
            container_prefix,
            host_prefix,
            asset,
            file,
        ) is None,
        file !is Missing ==> missing_file_line(container_prefix, host_prefix, asset, file) is None,
{
    law_rest_of_the_path_stays(container_prefix, host_prefix, rest, asset.original_path@);
}

/// The words of the errors: an asset outside the prefix is told with its file
/// name and its path.
pub proof fn law_timestamp_error_words(asset: AssetDetail)
    ensures
        timestamp_error_text(TimestampError::OutsidePrefix, asset) == Some(
            " !! "@ + asset.original_filename@
                + " doesn't start with the given container prefix, original_path: "@
                + asset.original_path@,
        ),
        timestamp_error_text(TimestampError::NoFile, asset) == Some("no file found"@),
        timestamp_error_text(TimestampError::NoField, asset) == Some(
            "no DateTimeOriginal field found"@,
        ),
        timestamp_error_text(TimestampError::UnsupportedType, asset) == Some(
            "unsupported value type for DateTimeOriginal"@,
        ),
        timestamp_error_text(TimestampError::NoValue, asset) == Some(
            "no value for DateTimeOriginal"@,
        ),
        timestamp_error_text(TimestampError::UnreadableFile, asset) is None,
        timestamp_error_text(TimestampError::UnreadableMetadata, asset) is None,
{
}

} // verus!
