//! The plain computations around a pipeline run: the clean image payload, the
//! names under which assets are stored, decoded images, and the final record.

use vstd::prelude::*;
use vstd::string::*;
use crate::stats::RobotStatus;

verus! {

/// The text that follows the last `c` in `s`.
pub open spec fn is_tail_after_last(s: Seq<char>, c: char, tail: Seq<char>) -> bool {
    &&& tail.len() < s.len()
    &&& s.subrange(s.len() - tail.len(), s.len() as int) == tail
    &&& s[s.len() - tail.len() - 1] == c
    &&& !tail.contains(c)
}

/// What is left of a base64 image once a data-URI prefix is gone: what
/// follows the last comma, or the whole text where it holds no comma.
pub open spec fn is_clean_image(image: Seq<char>, clean: Seq<char>) -> bool {
    if image.contains(',') {
        is_tail_after_last(image, ',', clean)
    } else {
        clean == image
    }
}

/// `str::rsplit_once` with a `char` as the delimiter: the text before and the
/// text after the last occurrence of the delimiter, or `None` where it does not
/// occur.
#[verifier::external_body]
fn split_at_last<'a>(s: &'a str, delimiter: char) -> (r: Option<(&'a str, &'a str)>)
    ensures
        match r {
            Some((before, after)) => s@ == before@ + seq![delimiter] + after@ && !after@.contains(delimiter),
            None => !s@.contains(delimiter),
        },
{
    s.rsplit_once(delimiter)
}

/// Strips a data-URI prefix from a base64 image.
pub fn clean_base64(image: &str) -> (r: String)
    ensures
        is_clean_image(image@, r@),
{
    match split_at_last(image, ',') {
        Some((before, after)) => {
            proof {
                let s = image@;
                let cut = before@.len() as int;
                assert(s[cut] == ',');
                assert(s.contains(','));
                assert(s.subrange(s.len() - after@.len(), s.len() as int) =~= after@);
            }
            String::from_str(after)
        },
        None => String::from_str(image),
    }
}

/// The assets stored for one run.
#[derive(Clone, Copy, Debug, PartialEq, Eq, Structural)]
pub enum Asset {
    OriginalImage,
    ConceptImage,
    IdleModel,
    AttackModel,
}

/// What an asset's file name ends in.
pub open spec fn asset_suffix(asset: Asset) -> Seq<char> {
    match asset {
        Asset::OriginalImage => "_original.png"@,
        Asset::ConceptImage => "_gen.png"@,
        Asset::IdleModel => "_idle.glb"@,
        Asset::AttackModel => "_attack.glb"@,
    }
}

/// The file name of an asset: the mesh job's identifier, which is unique to
/// the run, followed by the asset's suffix.
pub fn asset_name(mesh_job: &str, asset: Asset) -> (name: String)
    ensures
        name@ == mesh_job@ + asset_suffix(asset),
{
    let stem = String::from_str(mesh_job);
    match asset {
        Asset::OriginalImage => stem.concat("_original.png"),
        Asset::ConceptImage => stem.concat("_gen.png"),
        Asset::IdleModel => stem.concat("_idle.glb"),
        Asset::AttackModel => stem.concat("_attack.glb"),
    }
}

/// The bytes that a base64 text stands for, in the standard alphabet with
/// padding, or `None` where the text is not such an encoding.
pub uninterp spec fn base64_decoded(text: Seq<char>) -> Option<Seq<u8>>;

/// `base64::Engine::decode` on the engine `general_purpose::STANDARD`: whether
/// a text decodes, and to which bytes, depends on the text alone. The error's
/// message is handed on as it is.
#[verifier::external_body]
fn decode_standard(text: &str) -> (r: Result<Vec<u8>, String>)
    ensures
        match r {
            Ok(bytes) => base64_decoded(text@) == Some(bytes@),
            Err(_) => base64_decoded(text@) is None,
        },
{
    base64::Engine::decode(&base64::engine::general_purpose::STANDARD, text).map_err(|e| e.to_string())
}

/// The image is not valid base64; `detail` is the decoder's message.
#[derive(Clone, Debug, PartialEq, Eq)]
pub struct BadImage {
    pub asset: Asset,
    pub detail: String,
}

/// Decodes an image that is about to be stored. Fails exactly where the text is
/// not base64, and names the asset that it was meant for.
pub fn decode_image(asset: Asset, text: &str) -> (r: Result<Vec<u8>, BadImage>)
    ensures
        match base64_decoded(text@) {
            Some(bytes) => r is Ok && r->Ok_0@ == bytes,
            None => r is Err && r->Err_0.asset == asset,
        },
{
    match decode_standard(text) {
        Ok(bytes) => Ok(bytes),
        Err(detail) => Err(BadImage { asset, detail }),
    }
}

/// The finished robot: who it is, where its assets lie, and when and how long
/// it was made.
#[derive(Clone, Debug, PartialEq, Eq)]
pub struct RobotRecord {
    pub id: String,
    pub name: String,
    pub lore: String,
    pub hp: i32,
    pub atk: i32,
    pub def: i32,
    pub original_image_path: String,
    pub image_path: String,
    pub model_path: String,
    pub attack_model_path: String,
    pub created_at: i64,
    pub generation_time_ms: i64,
}

/// Where the four assets of a run were stored.
#[derive(Clone, Debug, PartialEq, Eq)]
pub struct AssetPaths {
    pub original_image: String,
    pub image: String,
    pub model: String,
    pub attack_model: String,
}

/// The record of a run, put together from its parts.
pub open spec fn record_of(
    id: String,
    stats: RobotStatus,
    paths: AssetPaths,
    created_at: i64,
    generation_time_ms: i64,
) -> RobotRecord {
    RobotRecord {
        id,
        name: stats.name,
        lore: stats.lore,
        hp: stats.hp,
        atk: stats.atk,
        def: stats.def,
        original_image_path: paths.original_image,
        image_path: paths.image,
        model_path: paths.model,
        attack_model_path: paths.attack_model,
        created_at,
        generation_time_ms,
    }
}

/// Puts the record of a run together: the statistics, the paths of the stored
/// assets, the creation time in seconds and the duration in milliseconds.
pub fn assemble_record(
    id: String,
    stats: RobotStatus,
    paths: AssetPaths,
    created_at: i64,
    generation_time_ms: i64,
) -> (record: RobotRecord)
    ensures
        record == record_of(id, stats, paths, created_at, generation_time_ms),
{
    RobotRecord {
        id,
        name: stats.name,
        lore: stats.lore,
        hp: stats.hp,
        atk: stats.atk,
        def: stats.def,
        original_image_path: paths.original_image,
        image_path: paths.image,
        model_path: paths.model,
        attack_model_path: paths.attack_model,
        created_at,
        generation_time_ms,
    }
}

/// A copy of a record.
pub fn copy_record(r: &RobotRecord) -> (c: RobotRecord)
    ensures
        c == *r,
{
    RobotRecord {
        id: r.id.clone(),
        name: r.name.clone(),
        lore: r.lore.clone(),
        hp: r.hp,
        atk: r.atk,
        def: r.def,
        original_image_path: r.original_image_path.clone(),
        image_path: r.image_path.clone(),
        model_path: r.model_path.clone(),
        attack_model_path: r.attack_model_path.clone(),
        created_at: r.created_at,
        generation_time_ms: r.generation_time_ms,
    }
}

/// `uuid::Uuid::new_v4` and the `to_string` of its result: a random
/// identifier, in the hyphenated form of 36 characters.
#[verifier::external_body]
pub(crate) fn random_id() -> (id: String)
    ensures
        id@.len() == 36,
{
    uuid::Uuid::new_v4().to_string()
}

/// Puts the record of a run together under a fresh random identifier. Every
/// field but the identifier is as `assemble_record` gives it.
pub fn assemble_new_record(stats: RobotStatus, paths: AssetPaths, created_at: i64, generation_time_ms: i64) -> (record:
    RobotRecord)
    ensures
        record.id@.len() == 36,
        record == record_of(record.id, stats, paths, created_at, generation_time_ms),
{
    assemble_record(random_id(), stats, paths, created_at, generation_time_ms)
}

} // verus!
