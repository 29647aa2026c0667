use vstd::prelude::*;

use crate::common::Game;
use crate::opcodes::Opcode;

verus! {

/// The opcode table of `game`; the unsupported release has no entry at all.
pub open spec fn spec_table(game: Game, raw: i32) -> Option<(Opcode, usize)> {
    match game {
        Game::F => f_table(raw),
        Game::F2nd => f2nd_table(raw),
        Game::X => x_table(raw),
        Game::FutureTone => future_tone_table(raw),
        Game::Arcade => None,
    }
}

/// The largest numeric id that the table of `game` uses.
pub open spec fn spec_max_id(game: Game) -> i32 {
    match game {
        Game::F => 83,
        Game::F2nd => 110,
        Game::X => 162,
        Game::FutureTone => 106,
        Game::Arcade => -1i32,
    }
}

pub(crate) fn max_id(game: Game) -> (r: i32)
    ensures
        r == spec_max_id(game),
{
    match game {
        Game::F => 83,
        Game::F2nd => 110,
        Game::X => 162,
        Game::FutureTone => 106,
        Game::Arcade => -1,
    }
}

pub(crate) fn table_entry(game: Game, raw: i32) -> (r: Option<(Opcode, usize)>)
    ensures
        r == spec_table(game, raw),
{
    match game {
        Game::F => f_entry(raw),
        Game::F2nd => f2nd_entry(raw),
        Game::X => x_entry(raw),
        Game::FutureTone => future_tone_entry(raw),
        Game::Arcade => None,
    }
}

/// The opcode table of the `F` release: numeric id to opcode and argument count.
pub open spec fn f_table(raw: i32) -> Option<(Opcode, usize)> {
    match raw {
        0i32 => Some((Opcode::END, 0usize)),
        1i32 => Some((Opcode::TIME, 1usize)),
        2i32 => Some((Opcode::MIKU_MOVE, 4usize)),
        3i32 => Some((Opcode::MIKU_ROT, 2usize)),
        4i32 => Some((Opcode::MIKU_DISP, 2usize)),
        5i32 => Some((Opcode::MIKU_SHADOW, 2usize)),
        6i32 => Some((Opcode::TARGET, 11usize)),
        7i32 => Some((Opcode::SET_MOTION, 4usize)),
        8i32 => Some((Opcode::SET_PLAYDATA, 2usize)),
        9i32 => Some((Opcode::EFFECT, 6usize)),
        10i32 => Some((Opcode::FADEIN_FIELD, 2usize)),
        11i32 => Some((Opcode::EFFECT_OFF, 1usize)),
        12i32 => Some((Opcode::SET_CAMERA, 6usize)),
        13i32 => Some((Opcode::DATA_CAMERA, 2usize)),
        14i32 => Some((Opcode::CHANGE_FIELD, 1usize)),
        15i32 => Some((Opcode::HIDE_FIELD, 1usize)),
        16i32 => Some((Opcode::MOVE_FIELD, 3usize)),
        17i32 => Some((Opcode::FADEOUT_FIELD, 2usize)),
        18i32 => Some((Opcode::EYE_ANIM, 3usize)),
        19i32 => Some((Opcode::MOUTH_ANIM, 5usize)),
        20i32 => Some((Opcode::HAND_ANIM, 5usize)),
        21i32 => Some((Opcode::LOOK_ANIM, 4usize)),
        22i32 => Some((Opcode::EXPRESSION, 4usize)),
        23i32 => Some((Opcode::LOOK_CAMERA, 5usize)),
        24i32 => Some((Opcode::LYRIC, 2usize)),
        25i32 => Some((Opcode::MUSIC_PLAY, 0usize)),
        26i32 => Some((Opcode::MODE_SELECT, 2usize)),
        27i32 => Some((Opcode::EDIT_MOTION, 4usize)),
        28i32 => Some((Opcode::BAR_TIME_SET, 2usize)),
        29i32 => Some((Opcode::SHADOWHEIGHT, 2usize)),
        30i32 => Some((Opcode::EDIT_FACE, 1usize)),
        31i32 => Some((Opcode::MOVE_CAMERA, 21usize)),
        32i32 => Some((Opcode::PV_END, 0usize)),
        33i32 => Some((Opcode::SHADOWPOS, 3usize)),
        34i32 => Some((Opcode::EDIT_LYRIC, 2usize)),
        35i32 => Some((Opcode::EDIT_TARGET, 5usize)),
        36i32 => Some((Opcode::EDIT_MOUTH, 1usize)),
        37i32 => Some((Opcode::SET_CHARA, 1usize)),
        38i32 => Some((Opcode::EDIT_MOVE, 7usize)),
        39i32 => Some((Opcode::EDIT_SHADOW, 1usize)),
        40i32 => Some((Opcode::EDIT_EYELID, 1usize)),
        41i32 => Some((Opcode::EDIT_EYE, 2usize)),
        42i32 => Some((Opcode::EDIT_ITEM, 1usize)),
        43i32 => Some((Opcode::EDIT_EFFECT, 2usize)),
        44i32 => Some((Opcode::EDIT_DISP, 1usize)),
        45i32 => Some((Opcode::EDIT_HAND_ANIM, 2usize)),
        46i32 => Some((Opcode::AIM, 3usize)),
        47i32 => Some((Opcode::HAND_ITEM, 3usize)),
        48i32 => Some((Opcode::EDIT_BLUSH, 1usize)),
        49i32 => Some((Opcode::NEAR_CLIP, 2usize)),
        50i32 => Some((Opcode::CLOTH_WET, 2usize)),
        51i32 => Some((Opcode::LIGHT_ROT, 3usize)),
        52i32 => Some((Opcode::SCENE_FADE, 6usize)),
        53i32 => Some((Opcode::TONE_TRANS, 6usize)),
        54i32 => Some((Opcode::SATURATE, 1usize)),
        55i32 => Some((Opcode::FADE_MODE, 1usize)),
        56i32 => Some((Opcode::AUTO_BLINK, 2usize)),
        57i32 => Some((Opcode::PARTS_DISP, 3usize)),
        58i32 => Some((Opcode::TARGET_FLYING_TIME, 1usize)),
        59i32 => Some((Opcode::CHARA_SIZE, 2usize)),
        60i32 => Some((Opcode::CHARA_HEIGHT_ADJUST, 2usize)),
        61i32 => Some((Opcode::ITEM_ANIM, 4usize)),
        62i32 => Some((Opcode::CHARA_POS_ADJUST, 4usize)),
        63i32 => Some((Opcode::SCENE_ROT, 1usize)),
        64i32 => Some((Opcode::EDIT_MOT_SMOOTH_LEN, 2usize)),
        65i32 => Some((Opcode::PV_BRANCH_MODE, 1usize)),
        66i32 => Some((Opcode::DATA_CAMERA_START, 2usize)),
        67i32 => Some((Opcode::MOVIE_PLAY, 1usize)),
        68i32 => Some((Opcode::MOVIE_DISP, 1usize)),
        69i32 => Some((Opcode::WIND, 3usize)),
        70i32 => Some((Opcode::OSAGE_STEP, 3usize)),
        71i32 => Some((Opcode::OSAGE_MV_CCL, 3usize)),
        72i32 => Some((Opcode::CHARA_COLOR, 2usize)),
        73i32 => Some((Opcode::SE_EFFECT, 1usize)),
        74i32 => Some((Opcode::EDIT_MOVE_XYZ, 9usize)),
        75i32 => Some((Opcode::EDIT_EYELID_ANIM, 3usize)),
        76i32 => Some((Opcode::EDIT_INSTRUMENT_ITEM, 2usize)),
        77i32 => Some((Opcode::EDIT_MOTION_LOOP, 4usize)),
        78i32 => Some((Opcode::EDIT_EXPRESSION, 2usize)),
        79i32 => Some((Opcode::EDIT_EYE_ANIM, 3usize)),
        80i32 => Some((Opcode::EDIT_MOUTH_ANIM, 2usize)),
        81i32 => Some((Opcode::EDIT_CAMERA, 24usize)),
        82i32 => Some((Opcode::EDIT_MODE_SELECT, 1usize)),
        83i32 => Some((Opcode::PV_END_FADEOUT, 2usize)),
        _ => None,
    }
}

/// The opcode table of the `F2nd` release: numeric id to opcode and argument count.
pub open spec fn f2nd_table(raw: i32) -> Option<(Opcode, usize)> {
    match raw {
        0i32 => Some((Opcode::END, 0usize)),
        1i32 => Some((Opcode::TIME, 1usize)),
        2i32 => Some((Opcode::MIKU_MOVE, 4usize)),
        3i32 => Some((Opcode::MIKU_ROT, 2usize)),
        4i32 => Some((Opcode::MIKU_DISP, 2usize)),
        5i32 => Some((Opcode::MIKU_SHADOW, 2usize)),
        6i32 => Some((Opcode::TARGET, 12usize)),
        7i32 => Some((Opcode::SET_MOTION, 4usize)),
        8i32 => Some((Opcode::SET_PLAYDATA, 2usize)),
        9i32 => Some((Opcode::EFFECT, 6usize)),
        10i32 => Some((Opcode::FADEIN_FIELD, 2usize)),
        11i32 => Some((Opcode::EFFECT_OFF, 1usize)),
        12i32 => Some((Opcode::SET_CAMERA, 6usize)),
        13i32 => Some((Opcode::DATA_CAMERA, 2usize)),
        14i32 => Some((Opcode::CHANGE_FIELD, 2usize)),
        15i32 => Some((Opcode::HIDE_FIELD, 1usize)),
        16i32 => Some((Opcode::MOVE_FIELD, 3usize)),
        17i32 => Some((Opcode::FADEOUT_FIELD, 2usize)),
        18i32 => Some((Opcode::EYE_ANIM, 3usize)),
        19i32 => Some((Opcode::MOUTH_ANIM, 5usize)),
        20i32 => Some((Opcode::HAND_ANIM, 5usize)),
        21i32 => Some((Opcode::LOOK_ANIM, 4usize)),
        22i32 => Some((Opcode::EXPRESSION, 4usize)),
        23i32 => Some((Opcode::LOOK_CAMERA, 5usize)),
        24i32 => Some((Opcode::LYRIC, 2usize)),
        25i32 => Some((Opcode::MUSIC_PLAY, 0usize)),
        26i32 => Some((Opcode::MODE_SELECT, 2usize)),
        27i32 => Some((Opcode::EDIT_MOTION, 4usize)),
        28i32 => Some((Opcode::BAR_TIME_SET, 2usize)),
        29i32 => Some((Opcode::SHADOWHEIGHT, 2usize)),
        30i32 => Some((Opcode::EDIT_FACE, 1usize)),
        31i32 => Some((Opcode::MOVE_CAMERA, 21usize)),
        32i32 => Some((Opcode::PV_END, 0usize)),
        33i32 => Some((Opcode::SHADOWPOS, 3usize)),
        34i32 => Some((Opcode::EDIT_LYRIC, 2usize)),
        35i32 => Some((Opcode::EDIT_TARGET, 5usize)),
        36i32 => Some((Opcode::EDIT_MOUTH, 1usize)),
        37i32 => Some((Opcode::SET_CHARA, 1usize)),
        38i32 => Some((Opcode::EDIT_MOVE, 7usize)),
        39i32 => Some((Opcode::EDIT_SHADOW, 1usize)),
        40i32 => Some((Opcode::EDIT_EYELID, 1usize)),
        41i32 => Some((Opcode::EDIT_EYE, 2usize)),
        42i32 => Some((Opcode::EDIT_ITEM, 1usize)),
        43i32 => Some((Opcode::EDIT_EFFECT, 2usize)),
        44i32 => Some((Opcode::EDIT_DISP, 1usize)),
        45i32 => Some((Opcode::EDIT_HAND_ANIM, 2usize)),
        46i32 => Some((Opcode::AIM, 3usize)),
        47i32 => Some((Opcode::HAND_ITEM, 3usize)),
        48i32 => Some((Opcode::EDIT_BLUSH, 1usize)),
        49i32 => Some((Opcode::NEAR_CLIP, 2usize)),
        50i32 => Some((Opcode::CLOTH_WET, 2usize)),
        51i32 => Some((Opcode::LIGHT_ROT, 3usize)),
        52i32 => Some((Opcode::SCENE_FADE, 6usize)),
        53i32 => Some((Opcode::TONE_TRANS, 6usize)),
        54i32 => Some((Opcode::SATURATE, 1usize)),
        55i32 => Some((Opcode::FADE_MODE, 1usize)),
        56i32 => Some((Opcode::AUTO_BLINK, 2usize)),
        57i32 => Some((Opcode::PARTS_DISP, 3usize)),
        58i32 => Some((Opcode::TARGET_FLYING_TIME, 1usize)),
        59i32 => Some((Opcode::CHARA_SIZE, 2usize)),
        60i32 => Some((Opcode::CHARA_HEIGHT_ADJUST, 2usize)),
        61i32 => Some((Opcode::ITEM_ANIM, 4usize)),
        62i32 => Some((Opcode::CHARA_POS_ADJUST, 4usize)),
        63i32 => Some((Opcode::SCENE_ROT, 1usize)),
        64i32 => Some((Opcode::EDIT_MOT_SMOOTH_LEN, 2usize)),
        65i32 => Some((Opcode::PV_BRANCH_MODE, 1usize)),
        66i32 => Some((Opcode::DATA_CAMERA_START, 2usize)),
        67i32 => Some((Opcode::MOVIE_PLAY, 1usize)),
        68i32 => Some((Opcode::MOVIE_DISP, 1usize)),
        69i32 => Some((Opcode::WIND, 3usize)),
        70i32 => Some((Opcode::OSAGE_STEP, 3usize)),
        71i32 => Some((Opcode::OSAGE_MV_CCL, 3usize)),
        72i32 => Some((Opcode::CHARA_COLOR, 2usize)),
        73i32 => Some((Opcode::SE_EFFECT, 1usize)),
        74i32 => Some((Opcode::EDIT_MOVE_XYZ, 9usize)),
        75i32 => Some((Opcode::EDIT_EYELID_ANIM, 3usize)),
        76i32 => Some((Opcode::EDIT_INSTRUMENT_ITEM, 2usize)),
        77i32 => Some((Opcode::EDIT_MOTION_LOOP, 4usize)),
        78i32 => Some((Opcode::EDIT_EXPRESSION, 2usize)),
        79i32 => Some((Opcode::EDIT_EYE_ANIM, 3usize)),
        80i32 => Some((Opcode::EDIT_MOUTH_ANIM, 2usize)),
        81i32 => Some((Opcode::EDIT_CAMERA, 22usize)),
        82i32 => Some((Opcode::EDIT_MODE_SELECT, 1usize)),
        83i32 => Some((Opcode::PV_END_FADEOUT, 2usize)),
        87i32 => Some((Opcode::RESERVE, 9usize)),
        88i32 => Some((Opcode::PV_AUTH_LIGHT_PRIORITY, 2usize)),
        89i32 => Some((Opcode::PV_CHARA_LIGHT, 3usize)),
        90i32 => Some((Opcode::PV_STAGE_LIGHT, 3usize)),
        91i32 => Some((Opcode::TARGET_EFFECT, 11usize)),
        92i32 => Some((Opcode::FOG, 3usize)),
        93i32 => Some((Opcode::BLOOM, 2usize)),
        94i32 => Some((Opcode::COLOR_CORRECTION, 3usize)),
        95i32 => Some((Opcode::DOF, 3usize)),
        96i32 => Some((Opcode::CHARA_ALPHA, 4usize)),
        97i32 => Some((Opcode::AUTO_CAPTURE_BEGIN, 1usize)),
        98i32 => Some((Opcode::MANUAL_CAPTURE, 1usize)),
        99i32 => Some((Opcode::TOON_EDGE, 3usize)),
        100i32 => Some((Opcode::SHIMMER, 3usize)),
        101i32 => Some((Opcode::ITEM_ALPHA, 4usize)),
        102i32 => Some((Opcode::MOVIE_CUT, 1usize)),
        103i32 => Some((Opcode::CROSSFADE, 1usize)),
        104i32 => Some((Opcode::SUBFRAMERENDER, 1usize)),
        105i32 => Some((Opcode::EVENT_JUDGE, 36usize)),
        106i32 => Some((Opcode::TOON_EDGE_ALT, 2usize)),
        107i32 => Some((Opcode::FOG_ENABLE, 2usize)),
        108i32 => Some((Opcode::EDIT_CAMERA_BOX, 112usize)),
        109i32 => Some((Opcode::EDIT_STAGE_PARAM, 1usize)),
        110i32 => Some((Opcode::EDIT_CHANGE_FIELD, 1usize)),
        _ => None,
    }
}

/// The opcode table of the `X` release: numeric id to opcode and argument count.
pub open spec fn x_table(raw: i32) -> Option<(Opcode, usize)> {
    match raw {
        0i32 => Some((Opcode::END, 0usize)),
        1i32 => Some((Opcode::TIME, 1usize)),
        2i32 => Some((Opcode::MIKU_MOVE, 4usize)),
        3i32 => Some((Opcode::MIKU_ROT, 2usize)),
        4i32 => Some((Opcode::MIKU_DISP, 2usize)),
        5i32 => Some((Opcode::MIKU_SHADOW, 2usize)),
        6i32 => Some((Opcode::TARGET, 12usize)),
        7i32 => Some((Opcode::SET_MOTION, 4usize)),
        8i32 => Some((Opcode::SET_PLAYDATA, 2usize)),
        9i32 => Some((Opcode::EFFECT, 6usize)),
        10i32 => Some((Opcode::FADEIN_FIELD, 2usize)),
        11i32 => Some((Opcode::EFFECT_OFF, 1usize)),
        12i32 => Some((Opcode::SET_CAMERA, 6usize)),
        13i32 => Some((Opcode::DATA_CAMERA, 2usize)),
        14i32 => Some((Opcode::CHANGE_FIELD, 2usize)),
        15i32 => Some((Opcode::HIDE_FIELD, 1usize)),
        16i32 => Some((Opcode::MOVE_FIELD, 3usize)),
        17i32 => Some((Opcode::FADEOUT_FIELD, 2usize)),
        18i32 => Some((Opcode::EYE_ANIM, 3usize)),
        19i32 => Some((Opcode::MOUTH_ANIM, 5usize)),
        20i32 => Some((Opcode::HAND_ANIM, 5usize)),
        21i32 => Some((Opcode::LOOK_ANIM, 4usize)),
        22i32 => Some((Opcode::EXPRESSION, 4usize)),
        23i32 => Some((Opcode::LOOK_CAMERA, 5usize)),
        24i32 => Some((Opcode::LYRIC, 2usize)),
        25i32 => Some((Opcode::MUSIC_PLAY, 0usize)),
        26i32 => Some((Opcode::MODE_SELECT, 2usize)),
        27i32 => Some((Opcode::EDIT_MOTION, 4usize)),
        28i32 => Some((Opcode::BAR_TIME_SET, 2usize)),
        29i32 => Some((Opcode::SHADOWHEIGHT, 2usize)),
        30i32 => Some((Opcode::EDIT_FACE, 1usize)),
        31i32 => Some((Opcode::DUMMY, 21usize)),
        32i32 => Some((Opcode::PV_END, 0usize)),
        33i32 => Some((Opcode::SHADOWPOS, 3usize)),
        34i32 => Some((Opcode::EDIT_LYRIC, 2usize)),
        35i32 => Some((Opcode::EDIT_TARGET, 5usize)),
        36i32 => Some((Opcode::EDIT_MOUTH, 1usize)),
        37i32 => Some((Opcode::SET_CHARA, 1usize)),
        38i32 => Some((Opcode::EDIT_MOVE, 7usize)),
        39i32 => Some((Opcode::EDIT_SHADOW, 1usize)),
        40i32 => Some((Opcode::EDIT_EYELID, 1usize)),
        41i32 => Some((Opcode::EDIT_EYE, 2usize)),
        42i32 => Some((Opcode::EDIT_ITEM, 1usize)),
        43i32 => Some((Opcode::EDIT_EFFECT, 2usize)),
        44i32 => Some((Opcode::EDIT_DISP, 1usize)),
        45i32 => Some((Opcode::EDIT_HAND_ANIM, 2usize)),
        46i32 => Some((Opcode::AIM, 3usize)),
        47i32 => Some((Opcode::HAND_ITEM, 3usize)),
        48i32 => Some((Opcode::EDIT_BLUSH, 1usize)),
        49i32 => Some((Opcode::NEAR_CLIP, 2usize)),
        50i32 => Some((Opcode::CLOTH_WET, 2usize)),
        51i32 => Some((Opcode::LIGHT_ROT, 3usize)),
        52i32 => Some((Opcode::SCENE_FADE, 6usize)),
        53i32 => Some((Opcode::TONE_TRANS, 6usize)),
        54i32 => Some((Opcode::SATURATE, 1usize)),
        55i32 => Some((Opcode::FADE_MODE, 1usize)),
        56i32 => Some((Opcode::AUTO_BLINK, 2usize)),
        57i32 => Some((Opcode::PARTS_DISP, 3usize)),
        58i32 => Some((Opcode::TARGET_FLYING_TIME, 1usize)),
        59i32 => Some((Opcode::CHARA_SIZE, 2usize)),
        60i32 => Some((Opcode::CHARA_HEIGHT_ADJUST, 2usize)),
        61i32 => Some((Opcode::ITEM_ANIM, 4usize)),
        62i32 => Some((Opcode::CHARA_POS_ADJUST, 4usize)),
        63i32 => Some((Opcode::SCENE_ROT, 1usize)),
        64i32 => Some((Opcode::EDIT_MOT_SMOOTH_LEN, 2usize)),
        65i32 => Some((Opcode::PV_BRANCH_MODE, 1usize)),
        66i32 => Some((Opcode::DATA_CAMERA_START, 2usize)),
        67i32 => Some((Opcode::MOVIE_PLAY, 1usize)),
        68i32 => Some((Opcode::MOVIE_DISP, 1usize)),
        69i32 => Some((Opcode::WIND, 3usize)),
        70i32 => Some((Opcode::OSAGE_STEP, 3usize)),
        71i32 => Some((Opcode::OSAGE_MV_CCL, 3usize)),
        72i32 => Some((Opcode::CHARA_COLOR, 2usize)),
        73i32 => Some((Opcode::SE_EFFECT, 1usize)),
        74i32 => Some((Opcode::CHARA_SHADOW_QUALITY, 2usize)),
        75i32 => Some((Opcode::STAGE_SHADOW_QUALITY, 2usize)),
        76i32 => Some((Opcode::COMMON_LIGHT, 2usize)),
        77i32 => Some((Opcode::TONE_MAP, 2usize)),
        78i32 => Some((Opcode::IBL_COLOR, 2usize)),
        79i32 => Some((Opcode::REFLECTION, 2usize)),
        80i32 => Some((Opcode::CHROMATIC_ABERRATION, 3usize)),
        81i32 => Some((Opcode::STAGE_SHADOW, 2usize)),
        82i32 => Some((Opcode::REFLECTION_QUALITY, 2usize)),
        83i32 => Some((Opcode::PV_END_FADEOUT, 2usize)),
        84i32 => Some((Opcode::CREDIT_TITLE, 1usize)),
        85i32 => Some((Opcode::BAR_POINT, 1usize)),
        86i32 => Some((Opcode::BEAT_POINT, 1usize)),
        88i32 => Some((Opcode::PV_AUTH_LIGHT_PRIORITY, 2usize)),
        89i32 => Some((Opcode::PV_CHARA_LIGHT, 3usize)),
        90i32 => Some((Opcode::PV_STAGE_LIGHT, 3usize)),
        91i32 => Some((Opcode::TARGET_EFFECT, 11usize)),
        92i32 => Some((Opcode::FOG, 3usize)),
        93i32 => Some((Opcode::BLOOM, 2usize)),
        94i32 => Some((Opcode::COLOR_CORRECTION, 3usize)),
        95i32 => Some((Opcode::DOF, 3usize)),
        96i32 => Some((Opcode::CHARA_ALPHA, 4usize)),
        97i32 => Some((Opcode::AUTO_CAPTURE_BEGIN, 1usize)),
        98i32 => Some((Opcode::MANUAL_CAPTURE, 1usize)),
        99i32 => Some((Opcode::TOON_EDGE, 3usize)),
        100i32 => Some((Opcode::SHIMMER, 3usize)),
        101i32 => Some((Opcode::ITEM_ALPHA, 4usize)),
        102i32 => Some((Opcode::MOVIE_CUT, 1usize)),
        103i32 => Some((Opcode::EDIT_CAMERA_BOX, 112usize)),
        104i32 => Some((Opcode::EDIT_STAGE_PARAM, 1usize)),
        105i32 => Some((Opcode::EDIT_CHANGE_FIELD, 1usize)),
        106i32 => Some((Opcode::MIKUDAYO_ADJUST, 7usize)),
        107i32 => Some((Opcode::LYRIC_2, 2usize)),
        108i32 => Some((Opcode::LYRIC_READ, 2usize)),
        109i32 => Some((Opcode::LYRIC_READ_2, 2usize)),
        110i32 => Some((Opcode::ANNOTATION, 5usize)),
        111i32 => Some((Opcode::STAGE_EFFECT, 2usize)),
        112i32 => Some((Opcode::SONG_EFFECT, 3usize)),
        113i32 => Some((Opcode::SONG_EFFECT_ATTACH, 3usize)),
        114i32 => Some((Opcode::LIGHT_AUTH, 2usize)),
        115i32 => Some((Opcode::FADE, 2usize)),
        116i32 => Some((Opcode::SET_STAGE_EFFECT_ENV, 2usize)),
        117i32 => Some((Opcode::RESERVE, 2usize)),
        118i32 => Some((Opcode::COMMON_EFFECT_AET_FRONT, 2usize)),
        119i32 => Some((Opcode::COMMON_EFFECT_AET_FRONT_LOW, 2usize)),
        120i32 => Some((Opcode::COMMON_EFFECT_PARTICLE, 2usize)),
        121i32 => Some((Opcode::SONG_EFFECT_ALPHA_SORT, 3usize)),
        122i32 => Some((Opcode::LOOK_CAMERA_FACE_LIMIT, 5usize)),
        123i32 => Some((Opcode::ITEM_LIGHT, 3usize)),
        124i32 => Some((Opcode::CHARA_EFFECT, 3usize)),
        125i32 => Some((Opcode::MARKER, 2usize)),
        126i32 => Some((Opcode::CHARA_EFFECT_CHARA_LIGHT, 3usize)),
        127i32 => Some((Opcode::ENABLE_COMMON_LIGHT_TO_CHARA, 2usize)),
        128i32 => Some((Opcode::ENABLE_FXAA, 2usize)),
        129i32 => Some((Opcode::ENABLE_TEMPORAL_AA, 2usize)),
        130i32 => Some((Opcode::ENABLE_REFLECTION, 2usize)),
        131i32 => Some((Opcode::BANK_BRANCH, 2usize)),
        132i32 => Some((Opcode::BANK_END, 2usize)),
        141i32 => Some((Opcode::VR_LIVE_MOVIE, 2usize)),
        142i32 => Some((Opcode::VR_CHEER, 2usize)),
        143i32 => Some((Opcode::VR_CHARA_PSMOVE, 2usize)),
        144i32 => Some((Opcode::VR_MOVE_PATH, 2usize)),
        145i32 => Some((Opcode::VR_SET_BASE, 2usize)),
        146i32 => Some((Opcode::VR_TECH_DEMO_EFFECT, 2usize)),
        147i32 => Some((Opcode::VR_TRANSFORM, 2usize)),
        148i32 => Some((Opcode::GAZE, 2usize)),
        149i32 => Some((Opcode::TECH_DEMO_GESUTRE, 2usize)),
        150i32 => Some((Opcode::VR_CHEMICAL_LIGHT_COLOR, 2usize)),
        151i32 => Some((Opcode::VR_LIVE_MOB, 5usize)),
        152i32 => Some((Opcode::VR_LIVE_HAIR_OSAGE, 9usize)),
        153i32 => Some((Opcode::VR_LIVE_LOOK_CAMERA, 9usize)),
        154i32 => Some((Opcode::VR_LIVE_CHEER, 5usize)),
        155i32 => Some((Opcode::VR_LIVE_GESTURE, 3usize)),
        156i32 => Some((Opcode::VR_LIVE_CLONE, 7usize)),
        157i32 => Some((Opcode::VR_LOOP_EFFECT, 7usize)),
        158i32 => Some((Opcode::VR_LIVE_ONESHOT_EFFECT, 6usize)),
        159i32 => Some((Opcode::VR_LIVE_PRESENT, 9usize)),
        160i32 => Some((Opcode::VR_LIVE_TRANSFORM, 5usize)),
        161i32 => Some((Opcode::VR_LIVE_FLY, 5usize)),
        162i32 => Some((Opcode::VR_LIVE_CHARA_VOICE, 2usize)),
        _ => None,
    }
}

/// The opcode table of the `FutureTone` release: numeric id to opcode and argument count.
pub open spec fn future_tone_table(raw: i32) -> Option<(Opcode, usize)> {
    match raw {
        0i32 => Some((Opcode::END, 0usize)),
        1i32 => Some((Opcode::TIME, 1usize)),
        2i32 => Some((Opcode::MIKU_MOVE, 4usize)),
        3i32 => Some((Opcode::MIKU_ROT, 2usize)),
        4i32 => Some((Opcode::MIKU_DISP, 2usize)),
        5i32 => Some((Opcode::MIKU_SHADOW, 2usize)),
        6i32 => Some((Opcode::TARGET, 7usize)),
        7i32 => Some((Opcode::SET_MOTION, 4usize)),
        8i32 => Some((Opcode::SET_PLAYDATA, 2usize)),
        9i32 => Some((Opcode::EFFECT, 6usize)),
        10i32 => Some((Opcode::FADEIN_FIELD, 2usize)),
        11i32 => Some((Opcode::EFFECT_OFF, 1usize)),
        12i32 => Some((Opcode::SET_CAMERA, 6usize)),
        13i32 => Some((Opcode::DATA_CAMERA, 2usize)),
        14i32 => Some((Opcode::CHANGE_FIELD, 1usize)),
        15i32 => Some((Opcode::HIDE_FIELD, 1usize)),
        16i32 => Some((Opcode::MOVE_FIELD, 3usize)),
        17i32 => Some((Opcode::FADEOUT_FIELD, 2usize)),
        18i32 => Some((Opcode::EYE_ANIM, 3usize)),
        19i32 => Some((Opcode::MOUTH_ANIM, 5usize)),
        20i32 => Some((Opcode::HAND_ANIM, 5usize)),
        21i32 => Some((Opcode::LOOK_ANIM, 4usize)),
        22i32 => Some((Opcode::EXPRESSION, 4usize)),
        23i32 => Some((Opcode::LOOK_CAMERA, 5usize)),
        24i32 => Some((Opcode::LYRIC, 2usize)),
        25i32 => Some((Opcode::MUSIC_PLAY, 0usize)),
        26i32 => Some((Opcode::MODE_SELECT, 2usize)),
        27i32 => Some((Opcode::EDIT_MOTION, 4usize)),
        28i32 => Some((Opcode::BAR_TIME_SET, 2usize)),
        29i32 => Some((Opcode::SHADOWHEIGHT, 2usize)),
        30i32 => Some((Opcode::EDIT_FACE, 1usize)),
        31i32 => Some((Opcode::MOVE_CAMERA, 21usize)),
        32i32 => Some((Opcode::PV_END, 0usize)),
        33i32 => Some((Opcode::SHADOWPOS, 3usize)),
        34i32 => Some((Opcode::EDIT_LYRIC, 2usize)),
        35i32 => Some((Opcode::EDIT_TARGET, 5usize)),
        36i32 => Some((Opcode::EDIT_MOUTH, 1usize)),
        37i32 => Some((Opcode::SET_CHARA, 1usize)),
        38i32 => Some((Opcode::EDIT_MOVE, 7usize)),
        39i32 => Some((Opcode::EDIT_SHADOW, 1usize)),
        40i32 => Some((Opcode::EDIT_EYELID, 1usize)),
        41i32 => Some((Opcode::EDIT_EYE, 2usize)),
        42i32 => Some((Opcode::EDIT_ITEM, 1usize)),
        43i32 => Some((Opcode::EDIT_EFFECT, 2usize)),
        44i32 => Some((Opcode::EDIT_DISP, 1usize)),
        45i32 => Some((Opcode::EDIT_HAND_ANIM, 2usize)),
        46i32 => Some((Opcode::AIM, 3usize)),
        47i32 => Some((Opcode::HAND_ITEM, 3usize)),
        48i32 => Some((Opcode::EDIT_BLUSH, 1usize)),
        49i32 => Some((Opcode::NEAR_CLIP, 2usize)),
        50i32 => Some((Opcode::CLOTH_WET, 2usize)),
        51i32 => Some((Opcode::LIGHT_ROT, 3usize)),
        52i32 => Some((Opcode::SCENE_FADE, 6usize)),
        53i32 => Some((Opcode::TONE_TRANS, 6usize)),
        54i32 => Some((Opcode::SATURATE, 1usize)),
        55i32 => Some((Opcode::FADE_MODE, 1usize)),
        56i32 => Some((Opcode::AUTO_BLINK, 2usize)),
        57i32 => Some((Opcode::PARTS_DISP, 3usize)),
        58i32 => Some((Opcode::TARGET_FLYING_TIME, 1usize)),
        59i32 => Some((Opcode::CHARA_SIZE, 2usize)),
        60i32 => Some((Opcode::CHARA_HEIGHT_ADJUST, 2usize)),
        61i32 => Some((Opcode::ITEM_ANIM, 4usize)),
        62i32 => Some((Opcode::CHARA_POS_ADJUST, 4usize)),
        63i32 => Some((Opcode::SCENE_ROT, 1usize)),
        64i32 => Some((Opcode::EDIT_MOT_SMOOTH_LEN, 2usize)),
        65i32 => Some((Opcode::PV_BRANCH_MODE, 1usize)),
        66i32 => Some((Opcode::DATA_CAMERA_START, 2usize)),
        67i32 => Some((Opcode::MOVIE_PLAY, 1usize)),
        68i32 => Some((Opcode::MOVIE_DISP, 1usize)),
        69i32 => Some((Opcode::WIND, 3usize)),
        70i32 => Some((Opcode::OSAGE_STEP, 3usize)),
        71i32 => Some((Opcode::OSAGE_MV_CCL, 3usize)),
        72i32 => Some((Opcode::CHARA_COLOR, 2usize)),
        73i32 => Some((Opcode::SE_EFFECT, 1usize)),
        74i32 => Some((Opcode::EDIT_MOVE_XYZ, 9usize)),
        75i32 => Some((Opcode::EDIT_EYELID_ANIM, 3usize)),
        76i32 => Some((Opcode::EDIT_INSTRUMENT_ITEM, 2usize)),
        77i32 => Some((Opcode::EDIT_MOTION_LOOP, 4usize)),
        78i32 => Some((Opcode::EDIT_EXPRESSION, 2usize)),
        79i32 => Some((Opcode::EDIT_EYE_ANIM, 3usize)),
        80i32 => Some((Opcode::EDIT_MOUTH_ANIM, 2usize)),
        81i32 => Some((Opcode::EDIT_CAMERA, 24usize)),
        82i32 => Some((Opcode::EDIT_MODE_SELECT, 1usize)),
        83i32 => Some((Opcode::PV_END_FADEOUT, 2usize)),
        84i32 => Some((Opcode::TARGET_FLAG, 1usize)),
        85i32 => Some((Opcode::ITEM_ANIM_ATTACH, 3usize)),
        86i32 => Some((Opcode::SHADOW_RANGE, 1usize)),
        87i32 => Some((Opcode::HAND_SCALE, 3usize)),
        88i32 => Some((Opcode::LIGHT_POS, 4usize)),
        89i32 => Some((Opcode::FACE_TYPE, 1usize)),
        90i32 => Some((Opcode::SHADOW_CAST, 2usize)),
        91i32 => Some((Opcode::EDIT_MOTION_F, 6usize)),
        92i32 => Some((Opcode::FOG, 3usize)),
        93i32 => Some((Opcode::BLOOM, 2usize)),
        94i32 => Some((Opcode::COLOR_COLLE, 3usize)),
        95i32 => Some((Opcode::DOF, 3usize)),
        96i32 => Some((Opcode::CHARA_ALPHA, 4usize)),
        97i32 => Some((Opcode::AOTO_CAP, 1usize)),
        98i32 => Some((Opcode::MAN_CAP, 1usize)),
        99i32 => Some((Opcode::TOON, 3usize)),
        100i32 => Some((Opcode::SHIMMER, 3usize)),
        101i32 => Some((Opcode::ITEM_ALPHA, 4usize)),
        102i32 => Some((Opcode::MOVIE_CUT_CHG, 1usize)),
        103i32 => Some((Opcode::CHARA_LIGHT, 3usize)),
        104i32 => Some((Opcode::STAGE_LIGHT, 3usize)),
        105i32 => Some((Opcode::AGEAGE_CTRL, 8usize)),
        106i32 => Some((Opcode::PSE, 2usize)),
        _ => None,
    }
}

pub(crate) fn f_entry(raw: i32) -> (r: Option<(Opcode, usize)>)
    ensures
        r == f_table(raw),
{
    match raw {
        0i32 => Some((Opcode::END, 0usize)),
        1i32 => Some((Opcode::TIME, 1usize)),
        2i32 => Some((Opcode::MIKU_MOVE, 4usize)),
        3i32 => Some((Opcode::MIKU_ROT, 2usize)),
        4i32 => Some((Opcode::MIKU_DISP, 2usize)),
        5i32 => Some((Opcode::MIKU_SHADOW, 2usize)),
        6i32 => Some((Opcode::TARGET, 11usize)),
        7i32 => Some((Opcode::SET_MOTION, 4usize)),
        8i32 => Some((Opcode::SET_PLAYDATA, 2usize)),
        9i32 => Some((Opcode::EFFECT, 6usize)),
        10i32 => Some((Opcode::FADEIN_FIELD, 2usize)),
        11i32 => Some((Opcode::EFFECT_OFF, 1usize)),
        12i32 => Some((Opcode::SET_CAMERA, 6usize)),
        13i32 => Some((Opcode::DATA_CAMERA, 2usize)),
        14i32 => Some((Opcode::CHANGE_FIELD, 1usize)),
        15i32 => Some((Opcode::HIDE_FIELD, 1usize)),
        16i32 => Some((Opcode::MOVE_FIELD, 3usize)),
        17i32 => Some((Opcode::FADEOUT_FIELD, 2usize)),
        18i32 => Some((Opcode::EYE_ANIM, 3usize)),
        19i32 => Some((Opcode::MOUTH_ANIM, 5usize)),
        20i32 => Some((Opcode::HAND_ANIM, 5usize)),
        21i32 => Some((Opcode::LOOK_ANIM, 4usize)),
        22i32 => Some((Opcode::EXPRESSION, 4usize)),
        23i32 => Some((Opcode::LOOK_CAMERA, 5usize)),
        24i32 => Some((Opcode::LYRIC, 2usize)),
        25i32 => Some((Opcode::MUSIC_PLAY, 0usize)),
        26i32 => Some((Opcode::MODE_SELECT, 2usize)),
        27i32 => Some((Opcode::EDIT_MOTION, 4usize)),
        28i32 => Some((Opcode::BAR_TIME_SET, 2usize)),
        29i32 => Some((Opcode::SHADOWHEIGHT, 2usize)),
        30i32 => Some((Opcode::EDIT_FACE, 1usize)),
        31i32 => Some((Opcode::MOVE_CAMERA, 21usize)),
        32i32 => Some((Opcode::PV_END, 0usize)),
        33i32 => Some((Opcode::SHADOWPOS, 3usize)),
        34i32 => Some((Opcode::EDIT_LYRIC, 2usize)),
        35i32 => Some((Opcode::EDIT_TARGET, 5usize)),
        36i32 => Some((Opcode::EDIT_MOUTH, 1usize)),
        37i32 => Some((Opcode::SET_CHARA, 1usize)),
        38i32 => Some((Opcode::EDIT_MOVE, 7usize)),
        39i32 => Some((Opcode::EDIT_SHADOW, 1usize)),
        40i32 => Some((Opcode::EDIT_EYELID, 1usize)),
        41i32 => Some((Opcode::EDIT_EYE, 2usize)),
        42i32 => Some((Opcode::EDIT_ITEM, 1usize)),
        43i32 => Some((Opcode::EDIT_EFFECT, 2usize)),
        44i32 => Some((Opcode::EDIT_DISP, 1usize)),
        45i32 => Some((Opcode::EDIT_HAND_ANIM, 2usize)),
        46i32 => Some((Opcode::AIM, 3usize)),
        47i32 => Some((Opcode::HAND_ITEM, 3usize)),
        48i32 => Some((Opcode::EDIT_BLUSH, 1usize)),
        49i32 => Some((Opcode::NEAR_CLIP, 2usize)),
        50i32 => Some((Opcode::CLOTH_WET, 2usize)),
        51i32 => Some((Opcode::LIGHT_ROT, 3usize)),
        52i32 => Some((Opcode::SCENE_FADE, 6usize)),
        53i32 => Some((Opcode::TONE_TRANS, 6usize)),
        54i32 => Some((Opcode::SATURATE, 1usize)),
        55i32 => Some((Opcode::FADE_MODE, 1usize)),
        56i32 => Some((Opcode::AUTO_BLINK, 2usize)),
        57i32 => Some((Opcode::PARTS_DISP, 3usize)),
        58i32 => Some((Opcode::TARGET_FLYING_TIME, 1usize)),
        59i32 => Some((Opcode::CHARA_SIZE, 2usize)),
        60i32 => Some((Opcode::CHARA_HEIGHT_ADJUST, 2usize)),
        61i32 => Some((Opcode::ITEM_ANIM, 4usize)),
        62i32 => Some((Opcode::CHARA_POS_ADJUST, 4usize)),
        63i32 => Some((Opcode::SCENE_ROT, 1usize)),
        64i32 => Some((Opcode::EDIT_MOT_SMOOTH_LEN, 2usize)),
        65i32 => Some((Opcode::PV_BRANCH_MODE, 1usize)),
        66i32 => Some((Opcode::DATA_CAMERA_START, 2usize)),
        67i32 => Some((Opcode::MOVIE_PLAY, 1usize)),
        68i32 => Some((Opcode::MOVIE_DISP, 1usize)),
        69i32 => Some((Opcode::WIND, 3usize)),
        70i32 => Some((Opcode::OSAGE_STEP, 3usize)),
        71i32 => Some((Opcode::OSAGE_MV_CCL, 3usize)),
        72i32 => Some((Opcode::CHARA_COLOR, 2usize)),
        73i32 => Some((Opcode::SE_EFFECT, 1usize)),
        74i32 => Some((Opcode::EDIT_MOVE_XYZ, 9usize)),
        75i32 => Some((Opcode::EDIT_EYELID_ANIM, 3usize)),
        76i32 => Some((Opcode::EDIT_INSTRUMENT_ITEM, 2usize)),
        77i32 => Some((Opcode::EDIT_MOTION_LOOP, 4usize)),
        78i32 => Some((Opcode::EDIT_EXPRESSION, 2usize)),
        79i32 => Some((Opcode::EDIT_EYE_ANIM, 3usize)),
        80i32 => Some((Opcode::EDIT_MOUTH_ANIM, 2usize)),
        81i32 => Some((Opcode::EDIT_CAMERA, 24usize)),
        82i32 => Some((Opcode::EDIT_MODE_SELECT, 1usize)),
        83i32 => Some((Opcode::PV_END_FADEOUT, 2usize)),
        _ => None,
    }
}

pub(crate) fn f2nd_entry(raw: i32) -> (r: Option<(Opcode, usize)>)
    ensures
        r == f2nd_table(raw),
{
    match raw {
        0i32 => Some((Opcode::END, 0usize)),
        1i32 => Some((Opcode::TIME, 1usize)),
        2i32 => Some((Opcode::MIKU_MOVE, 4usize)),
        3i32 => Some((Opcode::MIKU_ROT, 2usize)),
        4i32 => Some((Opcode::MIKU_DISP, 2usize)),
        5i32 => Some((Opcode::MIKU_SHADOW, 2usize)),
        6i32 => Some((Opcode::TARGET, 12usize)),
        7i32 => Some((Opcode::SET_MOTION, 4usize)),
        8i32 => Some((Opcode::SET_PLAYDATA, 2usize)),
        9i32 => Some((Opcode::EFFECT, 6usize)),
        10i32 => Some((Opcode::FADEIN_FIELD, 2usize)),
        11i32 => Some((Opcode::EFFECT_OFF, 1usize)),
        12i32 => Some((Opcode::SET_CAMERA, 6usize)),
        13i32 => Some((Opcode::DATA_CAMERA, 2usize)),
        14i32 => Some((Opcode::CHANGE_FIELD, 2usize)),
        15i32 => Some((Opcode::HIDE_FIELD, 1usize)),
        16i32 => Some((Opcode::MOVE_FIELD, 3usize)),
        17i32 => Some((Opcode::FADEOUT_FIELD, 2usize)),
        18i32 => Some((Opcode::EYE_ANIM, 3usize)),
        19i32 => Some((Opcode::MOUTH_ANIM, 5usize)),
        20i32 => Some((Opcode::HAND_ANIM, 5usize)),
        21i32 => Some((Opcode::LOOK_ANIM, 4usize)),
        22i32 => Some((Opcode::EXPRESSION, 4usize)),
        23i32 => Some((Opcode::LOOK_CAMERA, 5usize)),
        24i32 => Some((Opcode::LYRIC, 2usize)),
        25i32 => Some((Opcode::MUSIC_PLAY, 0usize)),
        26i32 => Some((Opcode::MODE_SELECT, 2usize)),
        27i32 => Some((Opcode::EDIT_MOTION, 4usize)),
        28i32 => Some((Opcode::BAR_TIME_SET, 2usize)),
        29i32 => Some((Opcode::SHADOWHEIGHT, 2usize)),
        30i32 => Some((Opcode::EDIT_FACE, 1usize)),
        31i32 => Some((Opcode::MOVE_CAMERA, 21usize)),
        32i32 => Some((Opcode::PV_END, 0usize)),
        33i32 => Some((Opcode::SHADOWPOS, 3usize)),
        34i32 => Some((Opcode::EDIT_LYRIC, 2usize)),
        35i32 => Some((Opcode::EDIT_TARGET, 5usize)),
        36i32 => Some((Opcode::EDIT_MOUTH, 1usize)),
        37i32 => Some((Opcode::SET_CHARA, 1usize)),
        38i32 => Some((Opcode::EDIT_MOVE, 7usize)),
        39i32 => Some((Opcode::EDIT_SHADOW, 1usize)),
        40i32 => Some((Opcode::EDIT_EYELID, 1usize)),
        41i32 => Some((Opcode::EDIT_EYE, 2usize)),
        42i32 => Some((Opcode::EDIT_ITEM, 1usize)),
        43i32 => Some((Opcode::EDIT_EFFECT, 2usize)),
        44i32 => Some((Opcode::EDIT_DISP, 1usize)),
        45i32 => Some((Opcode::EDIT_HAND_ANIM, 2usize)),
        46i32 => Some((Opcode::AIM, 3usize)),
        47i32 => Some((Opcode::HAND_ITEM, 3usize)),
        48i32 => Some((Opcode::EDIT_BLUSH, 1usize)),
        49i32 => Some((Opcode::NEAR_CLIP, 2usize)),
        50i32 => Some((Opcode::CLOTH_WET, 2usize)),
        51i32 => Some((Opcode::LIGHT_ROT, 3usize)),
        52i32 => Some((Opcode::SCENE_FADE, 6usize)),
        53i32 => Some((Opcode::TONE_TRANS, 6usize)),
        54i32 => Some((Opcode::SATURATE, 1usize)),
        55i32 => Some((Opcode::FADE_MODE, 1usize)),
        56i32 => Some((Opcode::AUTO_BLINK, 2usize)),
        57i32 => Some((Opcode::PARTS_DISP, 3usize)),
        58i32 => Some((Opcode::TARGET_FLYING_TIME, 1usize)),
        59i32 => Some((Opcode::CHARA_SIZE, 2usize)),
        60i32 => Some((Opcode::CHARA_HEIGHT_ADJUST, 2usize)),
        61i32 => Some((Opcode::ITEM_ANIM, 4usize)),
        62i32 => Some((Opcode::CHARA_POS_ADJUST, 4usize)),
        63i32 => Some((Opcode::SCENE_ROT, 1usize)),
        64i32 => Some((Opcode::EDIT_MOT_SMOOTH_LEN, 2usize)),
        65i32 => Some((Opcode::PV_BRANCH_MODE, 1usize)),
        66i32 => Some((Opcode::DATA_CAMERA_START, 2usize)),
        67i32 => Some((Opcode::MOVIE_PLAY, 1usize)),
        68i32 => Some((Opcode::MOVIE_DISP, 1usize)),
        69i32 => Some((Opcode::WIND, 3usize)),
        70i32 => Some((Opcode::OSAGE_STEP, 3usize)),
        71i32 => Some((Opcode::OSAGE_MV_CCL, 3usize)),
        72i32 => Some((Opcode::CHARA_COLOR, 2usize)),
        73i32 => Some((Opcode::SE_EFFECT, 1usize)),
        74i32 => Some((Opcode::EDIT_MOVE_XYZ, 9usize)),
        75i32 => Some((Opcode::EDIT_EYELID_ANIM, 3usize)),
        76i32 => Some((Opcode::EDIT_INSTRUMENT_ITEM, 2usize)),
        77i32 => Some((Opcode::EDIT_MOTION_LOOP, 4usize)),
        78i32 => Some((Opcode::EDIT_EXPRESSION, 2usize)),
        79i32 => Some((Opcode::EDIT_EYE_ANIM, 3usize)),
        80i32 => Some((Opcode::EDIT_MOUTH_ANIM, 2usize)),
        81i32 => Some((Opcode::EDIT_CAMERA, 22usize)),
        82i32 => Some((Opcode::EDIT_MODE_SELECT, 1usize)),
        83i32 => Some((Opcode::PV_END_FADEOUT, 2usize)),
        87i32 => Some((Opcode::RESERVE, 9usize)),
        88i32 => Some((Opcode::PV_AUTH_LIGHT_PRIORITY, 2usize)),
        89i32 => Some((Opcode::PV_CHARA_LIGHT, 3usize)),
        90i32 => Some((Opcode::PV_STAGE_LIGHT, 3usize)),
        91i32 => Some((Opcode::TARGET_EFFECT, 11usize)),
        92i32 => Some((Opcode::FOG, 3usize)),
        93i32 => Some((Opcode::BLOOM, 2usize)),
        94i32 => Some((Opcode::COLOR_CORRECTION, 3usize)),
        95i32 => Some((Opcode::DOF, 3usize)),
        96i32 => Some((Opcode::CHARA_ALPHA, 4usize)),
        97i32 => Some((Opcode::AUTO_CAPTURE_BEGIN, 1usize)),
        98i32 => Some((Opcode::MANUAL_CAPTURE, 1usize)),
        99i32 => Some((Opcode::TOON_EDGE, 3usize)),
        100i32 => Some((Opcode::SHIMMER, 3usize)),
        101i32 => Some((Opcode::ITEM_ALPHA, 4usize)),
        102i32 => Some((Opcode::MOVIE_CUT, 1usize)),
        103i32 => Some((Opcode::CROSSFADE, 1usize)),
        104i32 => Some((Opcode::SUBFRAMERENDER, 1usize)),
        105i32 => Some((Opcode::EVENT_JUDGE, 36usize)),
        106i32 => Some((Opcode::TOON_EDGE_ALT, 2usize)),
        107i32 => Some((Opcode::FOG_ENABLE, 2usize)),
        108i32 => Some((Opcode::EDIT_CAMERA_BOX, 112usize)),
        109i32 => Some((Opcode::EDIT_STAGE_PARAM, 1usize)),
        110i32 => Some((Opcode::EDIT_CHANGE_FIELD, 1usize)),
        _ => None,
    }
}

pub(crate) fn x_entry(raw: i32) -> (r: Option<(Opcode, usize)>)
    ensures
        r == x_table(raw),
{
    match raw {
        0i32 => Some((Opcode::END, 0usize)),
        1i32 => Some((Opcode::TIME, 1usize)),
        2i32 => Some((Opcode::MIKU_MOVE, 4usize)),
        3i32 => Some((Opcode::MIKU_ROT, 2usize)),
        4i32 => Some((Opcode::MIKU_DISP, 2usize)),
        5i32 => Some((Opcode::MIKU_SHADOW, 2usize)),
        6i32 => Some((Opcode::TARGET, 12usize)),
        7i32 => Some((Opcode::SET_MOTION, 4usize)),
        8i32 => Some((Opcode::SET_PLAYDATA, 2usize)),
        9i32 => Some((Opcode::EFFECT, 6usize)),
        10i32 => Some((Opcode::FADEIN_FIELD, 2usize)),
        11i32 => Some((Opcode::EFFECT_OFF, 1usize)),
        12i32 => Some((Opcode::SET_CAMERA, 6usize)),
        13i32 => Some((Opcode::DATA_CAMERA, 2usize)),
        14i32 => Some((Opcode::CHANGE_FIELD, 2usize)),
        15i32 => Some((Opcode::HIDE_FIELD, 1usize)),
        16i32 => Some((Opcode::MOVE_FIELD, 3usize)),
        17i32 => Some((Opcode::FADEOUT_FIELD, 2usize)),
        18i32 => Some((Opcode::EYE_ANIM, 3usize)),
        19i32 => Some((Opcode::MOUTH_ANIM, 5usize)),
        20i32 => Some((Opcode::HAND_ANIM, 5usize)),
        21i32 => Some((Opcode::LOOK_ANIM, 4usize)),
        22i32 => Some((Opcode::EXPRESSION, 4usize)),
        23i32 => Some((Opcode::LOOK_CAMERA, 5usize)),
        24i32 => Some((Opcode::LYRIC, 2usize)),
        25i32 => Some((Opcode::MUSIC_PLAY, 0usize)),
        26i32 => Some((Opcode::MODE_SELECT, 2usize)),
        27i32 => Some((Opcode::EDIT_MOTION, 4usize)),
        28i32 => Some((Opcode::BAR_TIME_SET, 2usize)),
        29i32 => Some((Opcode::SHADOWHEIGHT, 2usize)),
        30i32 => Some((Opcode::EDIT_FACE, 1usize)),
        31i32 => Some((Opcode::DUMMY, 21usize)),
        32i32 => Some((Opcode::PV_END, 0usize)),
        33i32 => Some((Opcode::SHADOWPOS, 3usize)),
        34i32 => Some((Opcode::EDIT_LYRIC, 2usize)),
        35i32 => Some((Opcode::EDIT_TARGET, 5usize)),
        36i32 => Some((Opcode::EDIT_MOUTH, 1usize)),
        37i32 => Some((Opcode::SET_CHARA, 1usize)),
        38i32 => Some((Opcode::EDIT_MOVE, 7usize)),
        39i32 => Some((Opcode::EDIT_SHADOW, 1usize)),
        40i32 => Some((Opcode::EDIT_EYELID, 1usize)),
        41i32 => Some((Opcode::EDIT_EYE, 2usize)),
        42i32 => Some((Opcode::EDIT_ITEM, 1usize)),
        43i32 => Some((Opcode::EDIT_EFFECT, 2usize)),
        44i32 => Some((Opcode::EDIT_DISP, 1usize)),
        45i32 => Some((Opcode::EDIT_HAND_ANIM, 2usize)),
        46i32 => Some((Opcode::AIM, 3usize)),
        47i32 => Some((Opcode::HAND_ITEM, 3usize)),
        48i32 => Some((Opcode::EDIT_BLUSH, 1usize)),
        49i32 => Some((Opcode::NEAR_CLIP, 2usize)),
        50i32 => Some((Opcode::CLOTH_WET, 2usize)),
        51i32 => Some((Opcode::LIGHT_ROT, 3usize)),
        52i32 => Some((Opcode::SCENE_FADE, 6usize)),
        53i32 => Some((Opcode::TONE_TRANS, 6usize)),
        54i32 => Some((Opcode::SATURATE, 1usize)),
        55i32 => Some((Opcode::FADE_MODE, 1usize)),
        56i32 => Some((Opcode::AUTO_BLINK, 2usize)),
        57i32 => Some((Opcode::PARTS_DISP, 3usize)),
        58i32 => Some((Opcode::TARGET_FLYING_TIME, 1usize)),
        59i32 => Some((Opcode::CHARA_SIZE, 2usize)),
        60i32 => Some((Opcode::CHARA_HEIGHT_ADJUST, 2usize)),
        61i32 => Some((Opcode::ITEM_ANIM, 4usize)),
        62i32 => Some((Opcode::CHARA_POS_ADJUST, 4usize)),
        63i32 => Some((Opcode::SCENE_ROT, 1usize)),
        64i32 => Some((Opcode::EDIT_MOT_SMOOTH_LEN, 2usize)),
        65i32 => Some((Opcode::PV_BRANCH_MODE, 1usize)),
        66i32 => Some((Opcode::DATA_CAMERA_START, 2usize)),
        67i32 => Some((Opcode::MOVIE_PLAY, 1usize)),
        68i32 => Some((Opcode::MOVIE_DISP, 1usize)),
        69i32 => Some((Opcode::WIND, 3usize)),
        70i32 => Some((Opcode::OSAGE_STEP, 3usize)),
        71i32 => Some((Opcode::OSAGE_MV_CCL, 3usize)),
        72i32 => Some((Opcode::CHARA_COLOR, 2usize)),
        73i32 => Some((Opcode::SE_EFFECT, 1usize)),
        74i32 => Some((Opcode::CHARA_SHADOW_QUALITY, 2usize)),
        75i32 => Some((Opcode::STAGE_SHADOW_QUALITY, 2usize)),
        76i32 => Some((Opcode::COMMON_LIGHT, 2usize)),
        77i32 => Some((Opcode::TONE_MAP, 2usize)),
        78i32 => Some((Opcode::IBL_COLOR, 2usize)),
        79i32 => Some((Opcode::REFLECTION, 2usize)),
        80i32 => Some((Opcode::CHROMATIC_ABERRATION, 3usize)),
        81i32 => Some((Opcode::STAGE_SHADOW, 2usize)),
        82i32 => Some((Opcode::REFLECTION_QUALITY, 2usize)),
        83i32 => Some((Opcode::PV_END_FADEOUT, 2usize)),
        84i32 => Some((Opcode::CREDIT_TITLE, 1usize)),
        85i32 => Some((Opcode::BAR_POINT, 1usize)),
        86i32 => Some((Opcode::BEAT_POINT, 1usize)),
        88i32 => Some((Opcode::PV_AUTH_LIGHT_PRIORITY, 2usize)),
        89i32 => Some((Opcode::PV_CHARA_LIGHT, 3usize)),
        90i32 => Some((Opcode::PV_STAGE_LIGHT, 3usize)),
        91i32 => Some((Opcode::TARGET_EFFECT, 11usize)),
        92i32 => Some((Opcode::FOG, 3usize)),
        93i32 => Some((Opcode::BLOOM, 2usize)),
        94i32 => Some((Opcode::COLOR_CORRECTION, 3usize)),
        95i32 => Some((Opcode::DOF, 3usize)),
        96i32 => Some((Opcode::CHARA_ALPHA, 4usize)),
        97i32 => Some((Opcode::AUTO_CAPTURE_BEGIN, 1usize)),
        98i32 => Some((Opcode::MANUAL_CAPTURE, 1usize)),
        99i32 => Some((Opcode::TOON_EDGE, 3usize)),
        100i32 => Some((Opcode::SHIMMER, 3usize)),
        101i32 => Some((Opcode::ITEM_ALPHA, 4usize)),
        102i32 => Some((Opcode::MOVIE_CUT, 1usize)),
        103i32 => Some((Opcode::EDIT_CAMERA_BOX, 112usize)),
        104i32 => Some((Opcode::EDIT_STAGE_PARAM, 1usize)),
        105i32 => Some((Opcode::EDIT_CHANGE_FIELD, 1usize)),
        106i32 => Some((Opcode::MIKUDAYO_ADJUST, 7usize)),
        107i32 => Some((Opcode::LYRIC_2, 2usize)),
        108i32 => Some((Opcode::LYRIC_READ, 2usize)),
        109i32 => Some((Opcode::LYRIC_READ_2, 2usize)),
        110i32 => Some((Opcode::ANNOTATION, 5usize)),
        111i32 => Some((Opcode::STAGE_EFFECT, 2usize)),
        112i32 => Some((Opcode::SONG_EFFECT, 3usize)),
        113i32 => Some((Opcode::SONG_EFFECT_ATTACH, 3usize)),
        114i32 => Some((Opcode::LIGHT_AUTH, 2usize)),
        115i32 => Some((Opcode::FADE, 2usize)),
        116i32 => Some((Opcode::SET_STAGE_EFFECT_ENV, 2usize)),
        117i32 => Some((Opcode::RESERVE, 2usize)),
        118i32 => Some((Opcode::COMMON_EFFECT_AET_FRONT, 2usize)),
        119i32 => Some((Opcode::COMMON_EFFECT_AET_FRONT_LOW, 2usize)),
        120i32 => Some((Opcode::COMMON_EFFECT_PARTICLE, 2usize)),
        121i32 => Some((Opcode::SONG_EFFECT_ALPHA_SORT, 3usize)),
        122i32 => Some((Opcode::LOOK_CAMERA_FACE_LIMIT, 5usize)),
        123i32 => Some((Opcode::ITEM_LIGHT, 3usize)),
        124i32 => Some((Opcode::CHARA_EFFECT, 3usize)),
        125i32 => Some((Opcode::MARKER, 2usize)),
        126i32 => Some((Opcode::CHARA_EFFECT_CHARA_LIGHT, 3usize)),
        127i32 => Some((Opcode::ENABLE_COMMON_LIGHT_TO_CHARA, 2usize)),
        128i32 => Some((Opcode::ENABLE_FXAA, 2usize)),
        129i32 => Some((Opcode::ENABLE_TEMPORAL_AA, 2usize)),
        130i32 => Some((Opcode::ENABLE_REFLECTION, 2usize)),
        131i32 => Some((Opcode::BANK_BRANCH, 2usize)),
        132i32 => Some((Opcode::BANK_END, 2usize)),
        141i32 => Some((Opcode::VR_LIVE_MOVIE, 2usize)),
        142i32 => Some((Opcode::VR_CHEER, 2usize)),
        143i32 => Some((Opcode::VR_CHARA_PSMOVE, 2usize)),
        144i32 => Some((Opcode::VR_MOVE_PATH, 2usize)),
        145i32 => Some((Opcode::VR_SET_BASE, 2usize)),
        146i32 => Some((Opcode::VR_TECH_DEMO_EFFECT, 2usize)),
        147i32 => Some((Opcode::VR_TRANSFORM, 2usize)),
        148i32 => Some((Opcode::GAZE, 2usize)),
        149i32 => Some((Opcode::TECH_DEMO_GESUTRE, 2usize)),
        150i32 => Some((Opcode::VR_CHEMICAL_LIGHT_COLOR, 2usize)),
        151i32 => Some((Opcode::VR_LIVE_MOB, 5usize)),
        152i32 => Some((Opcode::VR_LIVE_HAIR_OSAGE, 9usize)),
        153i32 => Some((Opcode::VR_LIVE_LOOK_CAMERA, 9usize)),
        154i32 => Some((Opcode::VR_LIVE_CHEER, 5usize)),
        155i32 => Some((Opcode::VR_LIVE_GESTURE, 3usize)),
        156i32 => Some((Opcode::VR_LIVE_CLONE, 7usize)),
        157i32 => Some((Opcode::VR_LOOP_EFFECT, 7usize)),
        158i32 => Some((Opcode::VR_LIVE_ONESHOT_EFFECT, 6usize)),
        159i32 => Some((Opcode::VR_LIVE_PRESENT, 9usize)),
        160i32 => Some((Opcode::VR_LIVE_TRANSFORM, 5usize)),
        161i32 => Some((Opcode::VR_LIVE_FLY, 5usize)),
        162i32 => Some((Opcode::VR_LIVE_CHARA_VOICE, 2usize)),
        _ => None,
    }
}

pub(crate) fn future_tone_entry(raw: i32) -> (r: Option<(Opcode, usize)>)
    ensures
        r == future_tone_table(raw),
{
    match raw {
        0i32 => Some((Opcode::END, 0usize)),
        1i32 => Some((Opcode::TIME, 1usize)),
        2i32 => Some((Opcode::MIKU_MOVE, 4usize)),
        3i32 => Some((Opcode::MIKU_ROT, 2usize)),
        4i32 => Some((Opcode::MIKU_DISP, 2usize)),
        5i32 => Some((Opcode::MIKU_SHADOW, 2usize)),
        6i32 => Some((Opcode::TARGET, 7usize)),
        7i32 => Some((Opcode::SET_MOTION, 4usize)),
        8i32 => Some((Opcode::SET_PLAYDATA, 2usize)),
        9i32 => Some((Opcode::EFFECT, 6usize)),
        10i32 => Some((Opcode::FADEIN_FIELD, 2usize)),
        11i32 => Some((Opcode::EFFECT_OFF, 1usize)),
        12i32 => Some((Opcode::SET_CAMERA, 6usize)),
        13i32 => Some((Opcode::DATA_CAMERA, 2usize)),
        14i32 => Some((Opcode::CHANGE_FIELD, 1usize)),
        15i32 => Some((Opcode::HIDE_FIELD, 1usize)),
        16i32 => Some((Opcode::MOVE_FIELD, 3usize)),
        17i32 => Some((Opcode::FADEOUT_FIELD, 2usize)),
        18i32 => Some((Opcode::EYE_ANIM, 3usize)),
        19i32 => Some((Opcode::MOUTH_ANIM, 5usize)),
        20i32 => Some((Opcode::HAND_ANIM, 5usize)),
        21i32 => Some((Opcode::LOOK_ANIM, 4usize)),
        22i32 => Some((Opcode::EXPRESSION, 4usize)),
        23i32 => Some((Opcode::LOOK_CAMERA, 5usize)),
        24i32 => Some((Opcode::LYRIC, 2usize)),
        25i32 => Some((Opcode::MUSIC_PLAY, 0usize)),
        26i32 => Some((Opcode::MODE_SELECT, 2usize)),
        27i32 => Some((Opcode::EDIT_MOTION, 4usize)),
        28i32 => Some((Opcode::BAR_TIME_SET, 2usize)),
        29i32 => Some((Opcode::SHADOWHEIGHT, 2usize)),
        30i32 => Some((Opcode::EDIT_FACE, 1usize)),
        31i32 => Some((Opcode::MOVE_CAMERA, 21usize)),
        32i32 => Some((Opcode::PV_END, 0usize)),
        33i32 => Some((Opcode::SHADOWPOS, 3usize)),
        34i32 => Some((Opcode::EDIT_LYRIC, 2usize)),
        35i32 => Some((Opcode::EDIT_TARGET, 5usize)),
        36i32 => Some((Opcode::EDIT_MOUTH, 1usize)),
        37i32 => Some((Opcode::SET_CHARA, 1usize)),
        38i32 => Some((Opcode::EDIT_MOVE, 7usize)),
        39i32 => Some((Opcode::EDIT_SHADOW, 1usize)),
        40i32 => Some((Opcode::EDIT_EYELID, 1usize)),
        41i32 => Some((Opcode::EDIT_EYE, 2usize)),
        42i32 => Some((Opcode::EDIT_ITEM, 1usize)),
        43i32 => Some((Opcode::EDIT_EFFECT, 2usize)),
        44i32 => Some((Opcode::EDIT_DISP, 1usize)),
        45i32 => Some((Opcode::EDIT_HAND_ANIM, 2usize)),
        46i32 => Some((Opcode::AIM, 3usize)),
        47i32 => Some((Opcode::HAND_ITEM, 3usize)),
        48i32 => Some((Opcode::EDIT_BLUSH, 1usize)),
        49i32 => Some((Opcode::NEAR_CLIP, 2usize)),
        50i32 => Some((Opcode::CLOTH_WET, 2usize)),
        51i32 => Some((Opcode::LIGHT_ROT, 3usize)),
        52i32 => Some((Opcode::SCENE_FADE, 6usize)),
        53i32 => Some((Opcode::TONE_TRANS, 6usize)),
        54i32 => Some((Opcode::SATURATE, 1usize)),
        55i32 => Some((Opcode::FADE_MODE, 1usize)),
        56i32 => Some((Opcode::AUTO_BLINK, 2usize)),
        57i32 => Some((Opcode::PARTS_DISP, 3usize)),
        58i32 => Some((Opcode::TARGET_FLYING_TIME, 1usize)),
        59i32 => Some((Opcode::CHARA_SIZE, 2usize)),
        60i32 => Some((Opcode::CHARA_HEIGHT_ADJUST, 2usize)),
        61i32 => Some((Opcode::ITEM_ANIM, 4usize)),
        62i32 => Some((Opcode::CHARA_POS_ADJUST, 4usize)),
        63i32 => Some((Opcode::SCENE_ROT, 1usize)),
        64i32 => Some((Opcode::EDIT_MOT_SMOOTH_LEN, 2usize)),
        65i32 => Some((Opcode::PV_BRANCH_MODE, 1usize)),
        66i32 => Some((Opcode::DATA_CAMERA_START, 2usize)),
        67i32 => Some((Opcode::MOVIE_PLAY, 1usize)),
        68i32 => Some((Opcode::MOVIE_DISP, 1usize)),
        69i32 => Some((Opcode::WIND, 3usize)),
        70i32 => Some((Opcode::OSAGE_STEP, 3usize)),
        71i32 => Some((Opcode::OSAGE_MV_CCL, 3usize)),
        72i32 => Some((Opcode::CHARA_COLOR, 2usize)),
        73i32 => Some((Opcode::SE_EFFECT, 1usize)),
        74i32 => Some((Opcode::EDIT_MOVE_XYZ, 9usize)),
        75i32 => Some((Opcode::EDIT_EYELID_ANIM, 3usize)),
        76i32 => Some((Opcode::EDIT_INSTRUMENT_ITEM, 2usize)),
        77i32 => Some((Opcode::EDIT_MOTION_LOOP, 4usize)),
        78i32 => Some((Opcode::EDIT_EXPRESSION, 2usize)),
        79i32 => Some((Opcode::EDIT_EYE_ANIM, 3usize)),
        80i32 => Some((Opcode::EDIT_MOUTH_ANIM, 2usize)),
        81i32 => Some((Opcode::EDIT_CAMERA, 24usize)),
        82i32 => Some((Opcode::EDIT_MODE_SELECT, 1usize)),
        83i32 => Some((Opcode::PV_END_FADEOUT, 2usize)),
        84i32 => Some((Opcode::TARGET_FLAG, 1usize)),
        85i32 => Some((Opcode::ITEM_ANIM_ATTACH, 3usize)),
        86i32 => Some((Opcode::SHADOW_RANGE, 1usize)),
        87i32 => Some((Opcode::HAND_SCALE, 3usize)),
        88i32 => Some((Opcode::LIGHT_POS, 4usize)),
        89i32 => Some((Opcode::FACE_TYPE, 1usize)),
        90i32 => Some((Opcode::SHADOW_CAST, 2usize)),
        91i32 => Some((Opcode::EDIT_MOTION_F, 6usize)),
        92i32 => Some((Opcode::FOG, 3usize)),
        93i32 => Some((Opcode::BLOOM, 2usize)),
        94i32 => Some((Opcode::COLOR_COLLE, 3usize)),
        95i32 => Some((Opcode::DOF, 3usize)),
        96i32 => Some((Opcode::CHARA_ALPHA, 4usize)),
        97i32 => Some((Opcode::AOTO_CAP, 1usize)),
        98i32 => Some((Opcode::MAN_CAP, 1usize)),
        99i32 => Some((Opcode::TOON, 3usize)),
        100i32 => Some((Opcode::SHIMMER, 3usize)),
        101i32 => Some((Opcode::ITEM_ALPHA, 4usize)),
        102i32 => Some((Opcode::MOVIE_CUT_CHG, 1usize)),
        103i32 => Some((Opcode::CHARA_LIGHT, 3usize)),
        104i32 => Some((Opcode::STAGE_LIGHT, 3usize)),
        105i32 => Some((Opcode::AGEAGE_CTRL, 8usize)),
        106i32 => Some((Opcode::PSE, 2usize)),
        _ => None,
    }
}

} // verus!
