use vstd::prelude::*;
use vstd::string::*;

use crate::common::Game;
use crate::error::{result_view, ApplicationError, ApplicationResult, ErrorView};
use crate::table::{max_id, spec_max_id, spec_table, table_entry};
use crate::text::{decimal, i32_to_string};

verus! {


/// Every command kind known across the supported releases.
#[allow(non_camel_case_types)]
#[derive(Clone, Copy, Debug, PartialEq, Eq, Structural)]
pub enum Opcode {
    AGEAGE_CTRL,
    AIM,
    ANNOTATION,
    AOTO_CAP,
    AUTO_BLINK,
    AUTO_CAPTURE_BEGIN,
    BANK_BRANCH,
    BANK_END,
    BAR_POINT,
    BAR_TIME_SET,
    BEAT_POINT,
    BLOOM,
    CHANGE_FIELD,
    CHARA_ALPHA,
    CHARA_COLOR,
    CHARA_EFFECT,
    CHARA_EFFECT_CHARA_LIGHT,
    CHARA_HEIGHT_ADJUST,
    CHARA_LIGHT,
    CHARA_POS_ADJUST,
    CHARA_SHADOW_QUALITY,
    CHARA_SIZE,
    CHROMATIC_ABERRATION,
    CLOTH_WET,
    COLOR_COLLE,
    COLOR_CORRECTION,
    COMMON_EFFECT_AET_FRONT,
    COMMON_EFFECT_AET_FRONT_LOW,
    COMMON_EFFECT_PARTICLE,
    COMMON_LIGHT,
    CREDIT_TITLE,
    CROSSFADE,
    DATA_CAMERA,
    DATA_CAMERA_START,
    DOF,
    DUMMY,
    EDIT_BLUSH,
    EDIT_CAMERA,
    EDIT_CAMERA_BOX,
    EDIT_CHANGE_FIELD,
    EDIT_DISP,
    EDIT_EFFECT,
    EDIT_EXPRESSION,
    EDIT_EYE,
    EDIT_EYELID,
    EDIT_EYELID_ANIM,
    EDIT_EYE_ANIM,
    EDIT_FACE,
    EDIT_HAND_ANIM,
    EDIT_INSTRUMENT_ITEM,
    EDIT_ITEM,
    EDIT_LYRIC,
    EDIT_MODE_SELECT,
    EDIT_MOTION,
    EDIT_MOTION_F,
    EDIT_MOTION_LOOP,
    EDIT_MOT_SMOOTH_LEN,
    EDIT_MOUTH,
    EDIT_MOUTH_ANIM,
    EDIT_MOVE,
    EDIT_MOVE_XYZ,
    EDIT_SHADOW,
    EDIT_STAGE_PARAM,
    EDIT_TARGET,
    EFFECT,
    EFFECT_OFF,
    ENABLE_COMMON_LIGHT_TO_CHARA,
    ENABLE_FXAA,
    ENABLE_REFLECTION,
    ENABLE_TEMPORAL_AA,
    END,
    EVENT_JUDGE,
    EXPRESSION,
    EYE_ANIM,
    FACE_TYPE,
    FADE,
    FADEIN_FIELD,
    FADEOUT_FIELD,
    FADE_MODE,
    FOG,
    FOG_ENABLE,
    GAZE,
    HAND_ANIM,
    HAND_ITEM,
    HAND_SCALE,
    HIDE_FIELD,
    IBL_COLOR,
    ITEM_ALPHA,
    ITEM_ANIM,
    ITEM_ANIM_ATTACH,
    ITEM_LIGHT,
    LIGHT_AUTH,
    LIGHT_POS,
    LIGHT_ROT,
    LOOK_ANIM,
    LOOK_CAMERA,
    LOOK_CAMERA_FACE_LIMIT,
    LYRIC,
    LYRIC_2,
    LYRIC_READ,
    LYRIC_READ_2,
    MANUAL_CAPTURE,
    MAN_CAP,
    MARKER,
    MIKUDAYO_ADJUST,
    MIKU_DISP,
    MIKU_MOVE,
    MIKU_ROT,
    MIKU_SHADOW,
    MODE_SELECT,
    MOUTH_ANIM,
    MOVE_CAMERA,
    MOVE_FIELD,
    MOVIE_CUT,
    MOVIE_CUT_CHG,
    MOVIE_DISP,
    MOVIE_PLAY,
    MUSIC_PLAY,
    NEAR_CLIP,
    OSAGE_MV_CCL,
    OSAGE_STEP,
    PARTS_DISP,
    PSE,
    PV_AUTH_LIGHT_PRIORITY,
    PV_BRANCH_MODE,
    PV_CHARA_LIGHT,
    PV_END,
    PV_END_FADEOUT,
    PV_STAGE_LIGHT,
    REFLECTION,
    REFLECTION_QUALITY,
    RESERVE,
    SATURATE,
    SCENE_FADE,
    SCENE_ROT,
    SET_CAMERA,
    SET_CHARA,
    SET_MOTION,
    SET_PLAYDATA,
    SET_STAGE_EFFECT_ENV,
    SE_EFFECT,
    SHADOWHEIGHT,
    SHADOWPOS,
    SHADOW_CAST,
    SHADOW_RANGE,
    SHIMMER,
    SONG_EFFECT,
    SONG_EFFECT_ALPHA_SORT,
    SONG_EFFECT_ATTACH,
    STAGE_EFFECT,
    STAGE_LIGHT,
    STAGE_SHADOW,
    STAGE_SHADOW_QUALITY,
    SUBFRAMERENDER,
    TARGET,
    TARGET_EFFECT,
    TARGET_FLAG,
    TARGET_FLYING_TIME,
    TECH_DEMO_GESUTRE,
    TIME,
    TONE_MAP,
    TONE_TRANS,
    TOON,
    TOON_EDGE,
    TOON_EDGE_ALT,
    VR_CHARA_PSMOVE,
    VR_CHEER,
    VR_CHEMICAL_LIGHT_COLOR,
    VR_LIVE_CHARA_VOICE,
    VR_LIVE_CHEER,
    VR_LIVE_CLONE,
    VR_LIVE_FLY,
    VR_LIVE_GESTURE,
    VR_LIVE_HAIR_OSAGE,
    VR_LIVE_LOOK_CAMERA,
    VR_LIVE_MOB,
    VR_LIVE_MOVIE,
    VR_LIVE_ONESHOT_EFFECT,
    VR_LIVE_PRESENT,
    VR_LIVE_TRANSFORM,
    VR_LOOP_EFFECT,
    VR_MOVE_PATH,
    VR_SET_BASE,
    VR_TECH_DEMO_EFFECT,
    VR_TRANSFORM,
    WIND,
}

/// The name of an opcode, as written in plaintext timelines.
pub open spec fn spec_opcode_name(op: Opcode) -> Seq<char> {
    match op {
        Opcode::AGEAGE_CTRL => "AGEAGE_CTRL"@,
        Opcode::AIM => "AIM"@,
        Opcode::ANNOTATION => "ANNOTATION"@,
        Opcode::AOTO_CAP => "AOTO_CAP"@,
        Opcode::AUTO_BLINK => "AUTO_BLINK"@,
        Opcode::AUTO_CAPTURE_BEGIN => "AUTO_CAPTURE_BEGIN"@,
        Opcode::BANK_BRANCH => "BANK_BRANCH"@,
        Opcode::BANK_END => "BANK_END"@,
        Opcode::BAR_POINT => "BAR_POINT"@,
        Opcode::BAR_TIME_SET => "BAR_TIME_SET"@,
        Opcode::BEAT_POINT => "BEAT_POINT"@,
        Opcode::BLOOM => "BLOOM"@,
        Opcode::CHANGE_FIELD => "CHANGE_FIELD"@,
        Opcode::CHARA_ALPHA => "CHARA_ALPHA"@,
        Opcode::CHARA_COLOR => "CHARA_COLOR"@,
        Opcode::CHARA_EFFECT => "CHARA_EFFECT"@,
        Opcode::CHARA_EFFECT_CHARA_LIGHT => "CHARA_EFFECT_CHARA_LIGHT"@,
        Opcode::CHARA_HEIGHT_ADJUST => "CHARA_HEIGHT_ADJUST"@,
        Opcode::CHARA_LIGHT => "CHARA_LIGHT"@,
        Opcode::CHARA_POS_ADJUST => "CHARA_POS_ADJUST"@,
        Opcode::CHARA_SHADOW_QUALITY => "CHARA_SHADOW_QUALITY"@,
        Opcode::CHARA_SIZE => "CHARA_SIZE"@,
        Opcode::CHROMATIC_ABERRATION => "CHROMATIC_ABERRATION"@,
        Opcode::CLOTH_WET => "CLOTH_WET"@,
        Opcode::COLOR_COLLE => "COLOR_COLLE"@,
        Opcode::COLOR_CORRECTION => "COLOR_CORRECTION"@,
        Opcode::COMMON_EFFECT_AET_FRONT => "COMMON_EFFECT_AET_FRONT"@,
        Opcode::COMMON_EFFECT_AET_FRONT_LOW => "COMMON_EFFECT_AET_FRONT_LOW"@,
        Opcode::COMMON_EFFECT_PARTICLE => "COMMON_EFFECT_PARTICLE"@,
        Opcode::COMMON_LIGHT => "COMMON_LIGHT"@,
        Opcode::CREDIT_TITLE => "CREDIT_TITLE"@,
        Opcode::CROSSFADE => "CROSSFADE"@,
        Opcode::DATA_CAMERA => "DATA_CAMERA"@,
        Opcode::DATA_CAMERA_START => "DATA_CAMERA_START"@,
        Opcode::DOF => "DOF"@,
        Opcode::DUMMY => "DUMMY"@,
        Opcode::EDIT_BLUSH => "EDIT_BLUSH"@,
        Opcode::EDIT_CAMERA => "EDIT_CAMERA"@,
        Opcode::EDIT_CAMERA_BOX => "EDIT_CAMERA_BOX"@,
        Opcode::EDIT_CHANGE_FIELD => "EDIT_CHANGE_FIELD"@,
        Opcode::EDIT_DISP => "EDIT_DISP"@,
        Opcode::EDIT_EFFECT => "EDIT_EFFECT"@,
        Opcode::EDIT_EXPRESSION => "EDIT_EXPRESSION"@,
        Opcode::EDIT_EYE => "EDIT_EYE"@,
        Opcode::EDIT_EYELID => "EDIT_EYELID"@,
        Opcode::EDIT_EYELID_ANIM => "EDIT_EYELID_ANIM"@,
        Opcode::EDIT_EYE_ANIM => "EDIT_EYE_ANIM"@,
        Opcode::EDIT_FACE => "EDIT_FACE"@,
        Opcode::EDIT_HAND_ANIM => "EDIT_HAND_ANIM"@,
        Opcode::EDIT_INSTRUMENT_ITEM => "EDIT_INSTRUMENT_ITEM"@,
        Opcode::EDIT_ITEM => "EDIT_ITEM"@,
        Opcode::EDIT_LYRIC => "EDIT_LYRIC"@,
        Opcode::EDIT_MODE_SELECT => "EDIT_MODE_SELECT"@,
        Opcode::EDIT_MOTION => "EDIT_MOTION"@,
        Opcode::EDIT_MOTION_F => "EDIT_MOTION_F"@,
        Opcode::EDIT_MOTION_LOOP => "EDIT_MOTION_LOOP"@,
        Opcode::EDIT_MOT_SMOOTH_LEN => "EDIT_MOT_SMOOTH_LEN"@,
        Opcode::EDIT_MOUTH => "EDIT_MOUTH"@,
        Opcode::EDIT_MOUTH_ANIM => "EDIT_MOUTH_ANIM"@,
        Opcode::EDIT_MOVE => "EDIT_MOVE"@,
        Opcode::EDIT_MOVE_XYZ => "EDIT_MOVE_XYZ"@,
        Opcode::EDIT_SHADOW => "EDIT_SHADOW"@,
        Opcode::EDIT_STAGE_PARAM => "EDIT_STAGE_PARAM"@,
        Opcode::EDIT_TARGET => "EDIT_TARGET"@,
        Opcode::EFFECT => "EFFECT"@,
        Opcode::EFFECT_OFF => "EFFECT_OFF"@,
        Opcode::ENABLE_COMMON_LIGHT_TO_CHARA => "ENABLE_COMMON_LIGHT_TO_CHARA"@,
        Opcode::ENABLE_FXAA => "ENABLE_FXAA"@,
        Opcode::ENABLE_REFLECTION => "ENABLE_REFLECTION"@,
        Opcode::ENABLE_TEMPORAL_AA => "ENABLE_TEMPORAL_AA"@,
        Opcode::END => "END"@,
        Opcode::EVENT_JUDGE => "EVENT_JUDGE"@,
        Opcode::EXPRESSION => "EXPRESSION"@,
        Opcode::EYE_ANIM => "EYE_ANIM"@,
        Opcode::FACE_TYPE => "FACE_TYPE"@,
        Opcode::FADE => "FADE"@,
        Opcode::FADEIN_FIELD => "FADEIN_FIELD"@,
        Opcode::FADEOUT_FIELD => "FADEOUT_FIELD"@,
        Opcode::FADE_MODE => "FADE_MODE"@,
        Opcode::FOG => "FOG"@,
        Opcode::FOG_ENABLE => "FOG_ENABLE"@,
        Opcode::GAZE => "GAZE"@,
        Opcode::HAND_ANIM => "HAND_ANIM"@,
        Opcode::HAND_ITEM => "HAND_ITEM"@,
        Opcode::HAND_SCALE => "HAND_SCALE"@,
        Opcode::HIDE_FIELD => "HIDE_FIELD"@,
        Opcode::IBL_COLOR => "IBL_COLOR"@,
        Opcode::ITEM_ALPHA => "ITEM_ALPHA"@,
        Opcode::ITEM_ANIM => "ITEM_ANIM"@,
        Opcode::ITEM_ANIM_ATTACH => "ITEM_ANIM_ATTACH"@,
        Opcode::ITEM_LIGHT => "ITEM_LIGHT"@,
        Opcode::LIGHT_AUTH => "LIGHT_AUTH"@,
        Opcode::LIGHT_POS => "LIGHT_POS"@,
        Opcode::LIGHT_ROT => "LIGHT_ROT"@,
        Opcode::LOOK_ANIM => "LOOK_ANIM"@,
        Opcode::LOOK_CAMERA => "LOOK_CAMERA"@,
        Opcode::LOOK_CAMERA_FACE_LIMIT => "LOOK_CAMERA_FACE_LIMIT"@,
        Opcode::LYRIC => "LYRIC"@,
        Opcode::LYRIC_2 => "LYRIC_2"@,
        Opcode::LYRIC_READ => "LYRIC_READ"@,
        Opcode::LYRIC_READ_2 => "LYRIC_READ_2"@,
        Opcode::MANUAL_CAPTURE => "MANUAL_CAPTURE"@,
        Opcode::MAN_CAP => "MAN_CAP"@,
        Opcode::MARKER => "MARKER"@,
        Opcode::MIKUDAYO_ADJUST => "MIKUDAYO_ADJUST"@,
        Opcode::MIKU_DISP => "MIKU_DISP"@,
        Opcode::MIKU_MOVE => "MIKU_MOVE"@,
        Opcode::MIKU_ROT => "MIKU_ROT"@,
        Opcode::MIKU_SHADOW => "MIKU_SHADOW"@,
        Opcode::MODE_SELECT => "MODE_SELECT"@,
        Opcode::MOUTH_ANIM => "MOUTH_ANIM"@,
        Opcode::MOVE_CAMERA => "MOVE_CAMERA"@,
        Opcode::MOVE_FIELD => "MOVE_FIELD"@,
        Opcode::MOVIE_CUT => "MOVIE_CUT"@,
        Opcode::MOVIE_CUT_CHG => "MOVIE_CUT_CHG"@,
        Opcode::MOVIE_DISP => "MOVIE_DISP"@,
        Opcode::MOVIE_PLAY => "MOVIE_PLAY"@,
        Opcode::MUSIC_PLAY => "MUSIC_PLAY"@,
        Opcode::NEAR_CLIP => "NEAR_CLIP"@,
        Opcode::OSAGE_MV_CCL => "OSAGE_MV_CCL"@,
        Opcode::OSAGE_STEP => "OSAGE_STEP"@,
        Opcode::PARTS_DISP => "PARTS_DISP"@,
        Opcode::PSE => "PSE"@,
        Opcode::PV_AUTH_LIGHT_PRIORITY => "PV_AUTH_LIGHT_PRIORITY"@,
        Opcode::PV_BRANCH_MODE => "PV_BRANCH_MODE"@,
        Opcode::PV_CHARA_LIGHT => "PV_CHARA_LIGHT"@,
        Opcode::PV_END => "PV_END"@,
        Opcode::PV_END_FADEOUT => "PV_END_FADEOUT"@,
        Opcode::PV_STAGE_LIGHT => "PV_STAGE_LIGHT"@,
        Opcode::REFLECTION => "REFLECTION"@,
        Opcode::REFLECTION_QUALITY => "REFLECTION_QUALITY"@,
        Opcode::RESERVE => "RESERVE"@,
        Opcode::SATURATE => "SATURATE"@,
        Opcode::SCENE_FADE => "SCENE_FADE"@,
        Opcode::SCENE_ROT => "SCENE_ROT"@,
        Opcode::SET_CAMERA => "SET_CAMERA"@,
        Opcode::SET_CHARA => "SET_CHARA"@,
        Opcode::SET_MOTION => "SET_MOTION"@,
        Opcode::SET_PLAYDATA => "SET_PLAYDATA"@,
        Opcode::SET_STAGE_EFFECT_ENV => "SET_STAGE_EFFECT_ENV"@,
        Opcode::SE_EFFECT => "SE_EFFECT"@,
        Opcode::SHADOWHEIGHT => "SHADOWHEIGHT"@,
        Opcode::SHADOWPOS => "SHADOWPOS"@,
        Opcode::SHADOW_CAST => "SHADOW_CAST"@,
        Opcode::SHADOW_RANGE => "SHADOW_RANGE"@,
        Opcode::SHIMMER => "SHIMMER"@,
        Opcode::SONG_EFFECT => "SONG_EFFECT"@,
        Opcode::SONG_EFFECT_ALPHA_SORT => "SONG_EFFECT_ALPHA_SORT"@,
        Opcode::SONG_EFFECT_ATTACH => "SONG_EFFECT_ATTACH"@,
        Opcode::STAGE_EFFECT => "STAGE_EFFECT"@,
        Opcode::STAGE_LIGHT => "STAGE_LIGHT"@,
        Opcode::STAGE_SHADOW => "STAGE_SHADOW"@,
        Opcode::STAGE_SHADOW_QUALITY => "STAGE_SHADOW_QUALITY"@,
        Opcode::SUBFRAMERENDER => "SUBFRAMERENDER"@,
        Opcode::TARGET => "TARGET"@,
        Opcode::TARGET_EFFECT => "TARGET_EFFECT"@,
        Opcode::TARGET_FLAG => "TARGET_FLAG"@,
        Opcode::TARGET_FLYING_TIME => "TARGET_FLYING_TIME"@,
        Opcode::TECH_DEMO_GESUTRE => "TECH_DEMO_GESUTRE"@,
        Opcode::TIME => "TIME"@,
        Opcode::TONE_MAP => "TONE_MAP"@,
        Opcode::TONE_TRANS => "TONE_TRANS"@,
        Opcode::TOON => "TOON"@,
        Opcode::TOON_EDGE => "TOON_EDGE"@,
        Opcode::TOON_EDGE_ALT => "TOON_EDGE_ALT"@,
        Opcode::VR_CHARA_PSMOVE => "VR_CHARA_PSMOVE"@,
        Opcode::VR_CHEER => "VR_CHEER"@,
        Opcode::VR_CHEMICAL_LIGHT_COLOR => "VR_CHEMICAL_LIGHT_COLOR"@,
        Opcode::VR_LIVE_CHARA_VOICE => "VR_LIVE_CHARA_VOICE"@,
        Opcode::VR_LIVE_CHEER => "VR_LIVE_CHEER"@,
        Opcode::VR_LIVE_CLONE => "VR_LIVE_CLONE"@,
        Opcode::VR_LIVE_FLY => "VR_LIVE_FLY"@,
        Opcode::VR_LIVE_GESTURE => "VR_LIVE_GESTURE"@,
        Opcode::VR_LIVE_HAIR_OSAGE => "VR_LIVE_HAIR_OSAGE"@,
        Opcode::VR_LIVE_LOOK_CAMERA => "VR_LIVE_LOOK_CAMERA"@,
        Opcode::VR_LIVE_MOB => "VR_LIVE_MOB"@,
        Opcode::VR_LIVE_MOVIE => "VR_LIVE_MOVIE"@,
        Opcode::VR_LIVE_ONESHOT_EFFECT => "VR_LIVE_ONESHOT_EFFECT"@,
        Opcode::VR_LIVE_PRESENT => "VR_LIVE_PRESENT"@,
        Opcode::VR_LIVE_TRANSFORM => "VR_LIVE_TRANSFORM"@,
        Opcode::VR_LOOP_EFFECT => "VR_LOOP_EFFECT"@,
        Opcode::VR_MOVE_PATH => "VR_MOVE_PATH"@,
        Opcode::VR_SET_BASE => "VR_SET_BASE"@,
        Opcode::VR_TECH_DEMO_EFFECT => "VR_TECH_DEMO_EFFECT"@,
        Opcode::VR_TRANSFORM => "VR_TRANSFORM"@,
        Opcode::WIND => "WIND"@,
    }
}

/// Returns the name of `op`, as written in plaintext timelines.
pub fn opcode_name(op: Opcode) -> (r: &'static str)
    ensures
        r@ == spec_opcode_name(op),
{
    match op {
        Opcode::AGEAGE_CTRL => "AGEAGE_CTRL",
        Opcode::AIM => "AIM",
        Opcode::ANNOTATION => "ANNOTATION",
        Opcode::AOTO_CAP => "AOTO_CAP",
        Opcode::AUTO_BLINK => "AUTO_BLINK",
        Opcode::AUTO_CAPTURE_BEGIN => "AUTO_CAPTURE_BEGIN",
        Opcode::BANK_BRANCH => "BANK_BRANCH",
        Opcode::BANK_END => "BANK_END",
        Opcode::BAR_POINT => "BAR_POINT",
        Opcode::BAR_TIME_SET => "BAR_TIME_SET",
        Opcode::BEAT_POINT => "BEAT_POINT",
        Opcode::BLOOM => "BLOOM",
        Opcode::CHANGE_FIELD => "CHANGE_FIELD",
        Opcode::CHARA_ALPHA => "CHARA_ALPHA",
        Opcode::CHARA_COLOR => "CHARA_COLOR",
        Opcode::CHARA_EFFECT => "CHARA_EFFECT",
        Opcode::CHARA_EFFECT_CHARA_LIGHT => "CHARA_EFFECT_CHARA_LIGHT",
        Opcode::CHARA_HEIGHT_ADJUST => "CHARA_HEIGHT_ADJUST",
        Opcode::CHARA_LIGHT => "CHARA_LIGHT",
        Opcode::CHARA_POS_ADJUST => "CHARA_POS_ADJUST",
        Opcode::CHARA_SHADOW_QUALITY => "CHARA_SHADOW_QUALITY",
        Opcode::CHARA_SIZE => "CHARA_SIZE",
        Opcode::CHROMATIC_ABERRATION => "CHROMATIC_ABERRATION",
        Opcode::CLOTH_WET => "CLOTH_WET",
        Opcode::COLOR_COLLE => "COLOR_COLLE",
        Opcode::COLOR_CORRECTION => "COLOR_CORRECTION",
        Opcode::COMMON_EFFECT_AET_FRONT => "COMMON_EFFECT_AET_FRONT",
        Opcode::COMMON_EFFECT_AET_FRONT_LOW => "COMMON_EFFECT_AET_FRONT_LOW",
        Opcode::COMMON_EFFECT_PARTICLE => "COMMON_EFFECT_PARTICLE",
        Opcode::COMMON_LIGHT => "COMMON_LIGHT",
        Opcode::CREDIT_TITLE => "CREDIT_TITLE",
        Opcode::CROSSFADE => "CROSSFADE",
        Opcode::DATA_CAMERA => "DATA_CAMERA",
        Opcode::DATA_CAMERA_START => "DATA_CAMERA_START",
        Opcode::DOF => "DOF",
        Opcode::DUMMY => "DUMMY",
        Opcode::EDIT_BLUSH => "EDIT_BLUSH",
        Opcode::EDIT_CAMERA => "EDIT_CAMERA",
        Opcode::EDIT_CAMERA_BOX => "EDIT_CAMERA_BOX",
        Opcode::EDIT_CHANGE_FIELD => "EDIT_CHANGE_FIELD",
        Opcode::EDIT_DISP => "EDIT_DISP",
        Opcode::EDIT_EFFECT => "EDIT_EFFECT",
        Opcode::EDIT_EXPRESSION => "EDIT_EXPRESSION",
        Opcode::EDIT_EYE => "EDIT_EYE",
        Opcode::EDIT_EYELID => "EDIT_EYELID",
        Opcode::EDIT_EYELID_ANIM => "EDIT_EYELID_ANIM",
        Opcode::EDIT_EYE_ANIM => "EDIT_EYE_ANIM",
        Opcode::EDIT_FACE => "EDIT_FACE",
        Opcode::EDIT_HAND_ANIM => "EDIT_HAND_ANIM",
        Opcode::EDIT_INSTRUMENT_ITEM => "EDIT_INSTRUMENT_ITEM",
        Opcode::EDIT_ITEM => "EDIT_ITEM",
        Opcode::EDIT_LYRIC => "EDIT_LYRIC",
        Opcode::EDIT_MODE_SELECT => "EDIT_MODE_SELECT",
        Opcode::EDIT_MOTION => "EDIT_MOTION",
        Opcode::EDIT_MOTION_F => "EDIT_MOTION_F",
        Opcode::EDIT_MOTION_LOOP => "EDIT_MOTION_LOOP",
        Opcode::EDIT_MOT_SMOOTH_LEN => "EDIT_MOT_SMOOTH_LEN",
        Opcode::EDIT_MOUTH => "EDIT_MOUTH",
        Opcode::EDIT_MOUTH_ANIM => "EDIT_MOUTH_ANIM",
        Opcode::EDIT_MOVE => "EDIT_MOVE",
        Opcode::EDIT_MOVE_XYZ => "EDIT_MOVE_XYZ",
        Opcode::EDIT_SHADOW => "EDIT_SHADOW",
        Opcode::EDIT_STAGE_PARAM => "EDIT_STAGE_PARAM",
        Opcode::EDIT_TARGET => "EDIT_TARGET",
        Opcode::EFFECT => "EFFECT",
        Opcode::EFFECT_OFF => "EFFECT_OFF",
        Opcode::ENABLE_COMMON_LIGHT_TO_CHARA => "ENABLE_COMMON_LIGHT_TO_CHARA",
        Opcode::ENABLE_FXAA => "ENABLE_FXAA",
        Opcode::ENABLE_REFLECTION => "ENABLE_REFLECTION",
        Opcode::ENABLE_TEMPORAL_AA => "ENABLE_TEMPORAL_AA",
        Opcode::END => "END",
        Opcode::EVENT_JUDGE => "EVENT_JUDGE",
        Opcode::EXPRESSION => "EXPRESSION",
        Opcode::EYE_ANIM => "EYE_ANIM",
        Opcode::FACE_TYPE => "FACE_TYPE",
        Opcode::FADE => "FADE",
        Opcode::FADEIN_FIELD => "FADEIN_FIELD",
        Opcode::FADEOUT_FIELD => "FADEOUT_FIELD",
        Opcode::FADE_MODE => "FADE_MODE",
        Opcode::FOG => "FOG",
        Opcode::FOG_ENABLE => "FOG_ENABLE",
        Opcode::GAZE => "GAZE",
        Opcode::HAND_ANIM => "HAND_ANIM",
        Opcode::HAND_ITEM => "HAND_ITEM",
        Opcode::HAND_SCALE => "HAND_SCALE",
        Opcode::HIDE_FIELD => "HIDE_FIELD",
        Opcode::IBL_COLOR => "IBL_COLOR",
        Opcode::ITEM_ALPHA => "ITEM_ALPHA",
        Opcode::ITEM_ANIM => "ITEM_ANIM",
        Opcode::ITEM_ANIM_ATTACH => "ITEM_ANIM_ATTACH",
        Opcode::ITEM_LIGHT => "ITEM_LIGHT",
        Opcode::LIGHT_AUTH => "LIGHT_AUTH",
        Opcode::LIGHT_POS => "LIGHT_POS",
        Opcode::LIGHT_ROT => "LIGHT_ROT",
        Opcode::LOOK_ANIM => "LOOK_ANIM",
        Opcode::LOOK_CAMERA => "LOOK_CAMERA",
        Opcode::LOOK_CAMERA_FACE_LIMIT => "LOOK_CAMERA_FACE_LIMIT",
        Opcode::LYRIC => "LYRIC",
        Opcode::LYRIC_2 => "LYRIC_2",
        Opcode::LYRIC_READ => "LYRIC_READ",
        Opcode::LYRIC_READ_2 => "LYRIC_READ_2",
        Opcode::MANUAL_CAPTURE => "MANUAL_CAPTURE",
        Opcode::MAN_CAP => "MAN_CAP",
        Opcode::MARKER => "MARKER",
        Opcode::MIKUDAYO_ADJUST => "MIKUDAYO_ADJUST",
        Opcode::MIKU_DISP => "MIKU_DISP",
        Opcode::MIKU_MOVE => "MIKU_MOVE",
        Opcode::MIKU_ROT => "MIKU_ROT",
        Opcode::MIKU_SHADOW => "MIKU_SHADOW",
        Opcode::MODE_SELECT => "MODE_SELECT",
        Opcode::MOUTH_ANIM => "MOUTH_ANIM",
        Opcode::MOVE_CAMERA => "MOVE_CAMERA",
        Opcode::MOVE_FIELD => "MOVE_FIELD",
        Opcode::MOVIE_CUT => "MOVIE_CUT",
        Opcode::MOVIE_CUT_CHG => "MOVIE_CUT_CHG",
        Opcode::MOVIE_DISP => "MOVIE_DISP",
        Opcode::MOVIE_PLAY => "MOVIE_PLAY",
        Opcode::MUSIC_PLAY => "MUSIC_PLAY",
        Opcode::NEAR_CLIP => "NEAR_CLIP",
        Opcode::OSAGE_MV_CCL => "OSAGE_MV_CCL",
        Opcode::OSAGE_STEP => "OSAGE_STEP",
        Opcode::PARTS_DISP => "PARTS_DISP",
        Opcode::PSE => "PSE",
        Opcode::PV_AUTH_LIGHT_PRIORITY => "PV_AUTH_LIGHT_PRIORITY",
        Opcode::PV_BRANCH_MODE => "PV_BRANCH_MODE",
        Opcode::PV_CHARA_LIGHT => "PV_CHARA_LIGHT",
        Opcode::PV_END => "PV_END",
        Opcode::PV_END_FADEOUT => "PV_END_FADEOUT",
        Opcode::PV_STAGE_LIGHT => "PV_STAGE_LIGHT",
        Opcode::REFLECTION => "REFLECTION",
        Opcode::REFLECTION_QUALITY => "REFLECTION_QUALITY",
        Opcode::RESERVE => "RESERVE",
        Opcode::SATURATE => "SATURATE",
        Opcode::SCENE_FADE => "SCENE_FADE",
        Opcode::SCENE_ROT => "SCENE_ROT",
        Opcode::SET_CAMERA => "SET_CAMERA",
        Opcode::SET_CHARA => "SET_CHARA",
        Opcode::SET_MOTION => "SET_MOTION",
        Opcode::SET_PLAYDATA => "SET_PLAYDATA",
        Opcode::SET_STAGE_EFFECT_ENV => "SET_STAGE_EFFECT_ENV",
        Opcode::SE_EFFECT => "SE_EFFECT",
        Opcode::SHADOWHEIGHT => "SHADOWHEIGHT",
        Opcode::SHADOWPOS => "SHADOWPOS",
        Opcode::SHADOW_CAST => "SHADOW_CAST",
        Opcode::SHADOW_RANGE => "SHADOW_RANGE",
        Opcode::SHIMMER => "SHIMMER",
        Opcode::SONG_EFFECT => "SONG_EFFECT",
        Opcode::SONG_EFFECT_ALPHA_SORT => "SONG_EFFECT_ALPHA_SORT",
        Opcode::SONG_EFFECT_ATTACH => "SONG_EFFECT_ATTACH",
        Opcode::STAGE_EFFECT => "STAGE_EFFECT",
        Opcode::STAGE_LIGHT => "STAGE_LIGHT",
        Opcode::STAGE_SHADOW => "STAGE_SHADOW",
        Opcode::STAGE_SHADOW_QUALITY => "STAGE_SHADOW_QUALITY",
        Opcode::SUBFRAMERENDER => "SUBFRAMERENDER",
        Opcode::TARGET => "TARGET",
        Opcode::TARGET_EFFECT => "TARGET_EFFECT",
        Opcode::TARGET_FLAG => "TARGET_FLAG",
        Opcode::TARGET_FLYING_TIME => "TARGET_FLYING_TIME",
        Opcode::TECH_DEMO_GESUTRE => "TECH_DEMO_GESUTRE",
        Opcode::TIME => "TIME",
        Opcode::TONE_MAP => "TONE_MAP",
        Opcode::TONE_TRANS => "TONE_TRANS",
        Opcode::TOON => "TOON",
        Opcode::TOON_EDGE => "TOON_EDGE",
        Opcode::TOON_EDGE_ALT => "TOON_EDGE_ALT",
        Opcode::VR_CHARA_PSMOVE => "VR_CHARA_PSMOVE",
        Opcode::VR_CHEER => "VR_CHEER",
        Opcode::VR_CHEMICAL_LIGHT_COLOR => "VR_CHEMICAL_LIGHT_COLOR",
        Opcode::VR_LIVE_CHARA_VOICE => "VR_LIVE_CHARA_VOICE",
        Opcode::VR_LIVE_CHEER => "VR_LIVE_CHEER",
        Opcode::VR_LIVE_CLONE => "VR_LIVE_CLONE",
        Opcode::VR_LIVE_FLY => "VR_LIVE_FLY",
        Opcode::VR_LIVE_GESTURE => "VR_LIVE_GESTURE",
        Opcode::VR_LIVE_HAIR_OSAGE => "VR_LIVE_HAIR_OSAGE",
        Opcode::VR_LIVE_LOOK_CAMERA => "VR_LIVE_LOOK_CAMERA",
        Opcode::VR_LIVE_MOB => "VR_LIVE_MOB",
        Opcode::VR_LIVE_MOVIE => "VR_LIVE_MOVIE",
        Opcode::VR_LIVE_ONESHOT_EFFECT => "VR_LIVE_ONESHOT_EFFECT",
        Opcode::VR_LIVE_PRESENT => "VR_LIVE_PRESENT",
        Opcode::VR_LIVE_TRANSFORM => "VR_LIVE_TRANSFORM",
        Opcode::VR_LOOP_EFFECT => "VR_LOOP_EFFECT",
        Opcode::VR_MOVE_PATH => "VR_MOVE_PATH",
        Opcode::VR_SET_BASE => "VR_SET_BASE",
        Opcode::VR_TECH_DEMO_EFFECT => "VR_TECH_DEMO_EFFECT",
        Opcode::VR_TRANSFORM => "VR_TRANSFORM",
        Opcode::WIND => "WIND",
    }
}

/// The identity of a command as one release encodes it: its numeric id in
/// that release, its opcode and the number of arguments that follow it.
#[derive(Clone, Copy, Debug, PartialEq, Eq, Structural)]
pub struct OpcodeMeta {
    pub id: i32,
    pub opcode: Opcode,
    pub param_count: usize,
}

impl OpcodeMeta {
    pub fn new(id: i32, opcode: Opcode, param_count: usize) -> (r: Self)
        ensures
            r == (OpcodeMeta { id, opcode, param_count }),
    {
        OpcodeMeta { id, opcode, param_count }
    }
}

/// One command of a timeline: its identity and its argument words.
#[derive(Debug, Clone)]
pub struct Command {
    pub meta: OpcodeMeta,
    pub args: Vec<i32>,
}

/// The mathematical value of a command.
pub ghost struct CommandView {
    pub meta: OpcodeMeta,
    pub args: Seq<i32>,
}

impl View for Command {
    type V = CommandView;

    open spec fn view(&self) -> CommandView {
        CommandView { meta: self.meta, args: self.args@ }
    }
}

/// Two commands are the same when their opcodes and their arguments agree;
/// the numeric id, which depends on the release, plays no part.
pub open spec fn same_command(a: CommandView, b: CommandView) -> bool {
    a.meta.opcode == b.meta.opcode && a.args == b.args
}

/// The text of a list of arguments: each in decimal, separated by `", "`.
pub open spec fn args_text(args: Seq<i32>) -> Seq<char>
    decreases args.len(),
{
    if args.len() == 0 {
        Seq::empty()
    } else if args.len() == 1 {
        decimal(args[0] as int)
    } else {
        args_text(args.drop_last()) + ", "@ + decimal(args.last() as int)
    }
}

/// The line that represents a command when a timeline is dumped:
/// `NAME(arg1, arg2, ...);`.
pub open spec fn command_text(c: CommandView) -> Seq<char> {
    spec_opcode_name(c.meta.opcode) + "("@ + args_text(c.args) + ");"@
}

/// What looking up `raw` in the table of `game` yields.
pub open spec fn spec_lookup(game: Game, raw: i32) -> Result<OpcodeMeta, ApplicationError> {
    if game == Game::Arcade {
        Err(ApplicationError::UnsupportedGame(game))
    } else {
        match spec_table(game, raw) {
            Some((opcode, param_count)) => Ok(OpcodeMeta { id: raw, opcode, param_count }),
            None => Err(ApplicationError::UnknownOpcode(raw)),
        }
    }
}

/// Whether the table of `game` holds an opcode named `name` under `id`.
pub open spec fn names_at(game: Game, id: i32, name: Seq<char>) -> bool {
    match spec_table(game, id) {
        Some((opcode, _)) => spec_opcode_name(opcode) == name,
        None => false,
    }
}


/// Whether `id` is the smallest id under which the table of `game` names `name`.
pub open spec fn first_named(game: Game, id: i32, name: Seq<char>) -> bool {
    &&& 0 <= id <= spec_max_id(game)
    &&& names_at(game, id, name)
    &&& forall|j: i32| 0 <= j < id ==> !names_at(game, j, name)
}

/// What looking up `name` in the table of `game` yields.
pub open spec fn spec_lookup_name(game: Game, name: Seq<char>) -> Result<OpcodeMeta, ErrorView> {
    if game == Game::Arcade {
        Err(ErrorView::UnsupportedGame(game))
    } else if exists|id: i32| first_named(game, id, name) {
        let id = choose|id: i32| first_named(game, id, name);
        result_view(spec_lookup(game, id))
    } else {
        Err(ErrorView::UnknownOpcodeName(name))
    }
}

proof fn lemma_first_named_unique(game: Game, a: i32, b: i32, name: Seq<char>)
    requires
        first_named(game, a, name),
        first_named(game, b, name),
    ensures
        a == b,
{
}

impl Command {
    pub fn new(meta: OpcodeMeta, args: Vec<i32>) -> (r: Self)
        ensures
            r.meta == meta,
            r.args@ == args@,
    {
        Command { meta, args }
    }

    /// A copy of this command.
    pub fn duplicate(&self) -> (r: Self)
        ensures
            r@ == self@,
    {
        let mut args: Vec<i32> = Vec::new();
        let mut i: usize = 0;
        while i < self.args.len()
            invariant
                i <= self.args.len(),
                args@ =~= self.args@.subrange(0, i as int),
            decreases self.args.len() - i,
        {
            args.push(self.args[i]);
            i = i + 1;
        }
        assert(self.args@.subrange(0, i as int) =~= self.args@);
        Command { meta: self.meta, args }
    }

    /// The dump line of this command, `NAME(arg1, arg2, ...);`.
    pub fn to_string(&self) -> (r: String)
        ensures
            r@ == command_text(self@),
    {
        let mut out = String::from_str(opcode_name(self.meta.opcode));
        out.append("(");
        let mut i: usize = 0;
        while i < self.args.len()
            invariant
                i <= self.args.len(),
                out@ == spec_opcode_name(self.meta.opcode) + "("@ + args_text(
                    self.args@.subrange(0, i as int),
                ),
            decreases self.args.len() - i,
        {
            let ghost prev = self.args@.subrange(0, i as int);
            let ghost next = self.args@.subrange(0, i + 1);
            assert(next.drop_last() =~= prev);
            if i > 0 {
                out.append(", ");
            }
            let digits = i32_to_string(self.args[i]);
            out.append(digits.as_str());
            proof {
                if i == 0 {
                    assert(prev =~= Seq::<i32>::empty());
                    assert(args_text(prev) =~= Seq::<char>::empty());
                }
            }
            assert(out@ =~= spec_opcode_name(self.meta.opcode) + "("@ + args_text(next));
            i = i + 1;
        }
        assert(self.args@.subrange(0, i as int) =~= self.args@);
        out.append(");");
        out
    }

    /// Looks up the numeric id `raw` in the table of `game`.
    pub fn get_opcode_meta(game: Game, raw: i32) -> (r: ApplicationResult<OpcodeMeta>)
        ensures
            r == spec_lookup(game, raw),
    {
        if game == Game::Arcade {
            return Err(ApplicationError::UnsupportedGame(game));
        }
        match table_entry(game, raw) {
            Some((opcode, param_count)) => Ok(OpcodeMeta::new(raw, opcode, param_count)),
            None => Err(ApplicationError::UnknownOpcode(raw)),
        }
    }

    /// Looks up an opcode of `game` by its name. When the table held a name
    /// twice, the smallest id would win.
    pub fn get_opcode_meta_from_name(game: Game, name: String) -> (r: ApplicationResult<OpcodeMeta>)
        ensures
            game == Game::Arcade ==> r == Err::<OpcodeMeta, ApplicationError>(
                ApplicationError::UnsupportedGame(game),
            ),
            game != Game::Arcade ==> match r {
                Ok(m) => {
                    &&& 0 <= m.id <= spec_max_id(game)
                    &&& spec_lookup(game, m.id) == Ok::<OpcodeMeta, ApplicationError>(m)
                    &&& spec_opcode_name(m.opcode) == name@
                    &&& forall|id: i32| 0 <= id < m.id ==> !names_at(game, id, name@)
                },
                Err(e) => {
                    &&& e == ApplicationError::UnknownOpcodeName(name)
                    &&& forall|id: i32| 0 <= id <= spec_max_id(game) ==> !names_at(game, id, name@)
                },
            },
            result_view(r) == spec_lookup_name(game, name@),
    {
        let ghost n = name@;
        if game == Game::Arcade {
            return Err(ApplicationError::UnsupportedGame(game));
        }
        let top = max_id(game);
        let mut id: i32 = 0;
        while id <= top
            invariant
                0 <= id,
                top == spec_max_id(game),
                top < i32::MAX,
                n == name@,
                game != Game::Arcade,
                id <= top + 1,
                forall|j: i32| 0 <= j < id ==> !names_at(game, j, name@),
            decreases top + 1 - id,
        {
            let entry = table_entry(game, id);
            match entry {
                Some((opcode, param_count)) => {
                    let candidate = String::from_str(opcode_name(opcode));
                    assert(candidate@ == spec_opcode_name(opcode));
                    if candidate.eq(&name) {
                        proof {
                            assert(candidate@ == n);
                            assert(spec_table(game, id) == Some((opcode, param_count)));
                            assert(names_at(game, id, n));
                            assert(first_named(game, id, n));
                            let c = choose|c: i32| first_named(game, c, n);
                            lemma_first_named_unique(game, c, id, n);
                        }
                        return Ok(OpcodeMeta::new(id, opcode, param_count));
                    }
                },
                None => {},
            }
            id = id + 1;
        }
        assert(!exists|c: i32| first_named(game, c, n));
        Err(ApplicationError::UnknownOpcodeName(name))
    }
}

impl PartialEq for Command {
    fn eq(&self, other: &Command) -> (r: bool) {
        if self.meta.opcode != other.meta.opcode || self.args.len() != other.args.len() {
            return false;
        }
        let mut i: usize = 0;
        while i < self.args.len()
            invariant
                i <= self.args.len(),
                self.args.len() == other.args.len(),
                forall|j: int| 0 <= j < i ==> self.args@[j] == other.args@[j],
            decreases self.args.len() - i,
        {
            if self.args[i] != other.args[i] {
                return false;
            }
            i = i + 1;
        }
        assert(self.args@ =~= other.args@);
        true
    }
}

impl vstd::std_specs::cmp::PartialEqSpecImpl for Command {
    open spec fn obeys_eq_spec() -> bool {
        true
    }

    open spec fn eq_spec(&self, other: &Command) -> bool {
        same_command(self@, other@)
    }
}

impl Eq for Command {
}

} // verus!
