//! Speech-service data and the choice of the voice a message is spoken in.
use vstd::prelude::*;

verus! {

/// A preset of the speech service: a voice style with its speed, pitch and
/// volume.
#[derive(Debug, Clone, Copy, PartialEq, Eq, Structural, Hash)]
pub struct PresetId(pub i64);

impl From<i64> for PresetId {
    fn from(x: i64) -> (r: Self) {
        PresetId(x)
    }
}

impl vstd::std_specs::convert::FromSpecImpl<i64> for PresetId {
    open spec fn obeys_from_spec() -> bool {
        true
    }

    open spec fn from_spec(v: i64) -> Self {
        PresetId(v)
    }
}

impl From<PresetId> for i64 {
    fn from(x: PresetId) -> (r: Self) {
        x.0
    }
}

impl vstd::std_specs::convert::FromSpecImpl<PresetId> for i64 {
    open spec fn obeys_from_spec() -> bool {
        true
    }

    open spec fn from_spec(v: PresetId) -> Self {
        v.0
    }
}

/// A request to speak `text` with a preset.
#[derive(Debug, Clone)]
pub struct SpeechRequest {
    pub text: String,
    pub preset_id: PresetId,
}

/// Parameters of a speech query made from a preset.
#[derive(Debug, Clone)]
pub struct GenerateQueryFromPresetParams {
    pub preset_id: i64,
    pub text: String,
}

/// Parameters of a synthesis: the style, and the query as JSON text.
#[derive(Debug, Clone)]
pub struct SynthesisParams {
    pub style_id: i64,
    pub query: String,
}

/// A raw voice style of a speaker.
#[derive(Debug, Clone)]
pub struct SpeakerStyle {
    pub id: i64,
    pub name: String,
}

/// A speaker of the speech service with its styles.
#[derive(Debug, Clone)]
pub struct Speaker {
    pub name: String,
    pub speaker_uuid: String,
    pub styles: Vec<SpeakerStyle>,
}

/// `p` occurs somewhere in `s`.
pub open spec fn contains_seq(s: Seq<char>, p: Seq<char>) -> bool {
    exists|i: int| 0 <= i <= s.len() - p.len() && #[trigger] s.subrange(i, i + p.len()) == p
}

/// Relies on `str::contains` with a string pattern: whether `p` is a
/// substring of `s`.
#[verifier::external_body]
pub(crate) fn str_contains(s: &str, p: &str) -> (r: bool)
    ensures
        r == contains_seq(s@, p@),
{
    s.contains(p)
}

/// The speaker whose normal style is the default voice.
pub const DEFAULT_SPEAKER_UUID: &'static str = "388f246b-8c41-4ac1-8e2d-5d79f3ff56d9";

pub const DEFAULT_SPEAKER_NAME: &'static str = "ずんだもん";

pub const NORMAL_STYLE_NAME: &'static str = "ノーマル";

pub open spec fn is_default_speaker(sp: Speaker) -> bool {
    sp.speaker_uuid@ == DEFAULT_SPEAKER_UUID@ || contains_seq(sp.name@, DEFAULT_SPEAKER_NAME@)
}

/// The first default speaker at index `k` or later.
pub open spec fn first_default_speaker(sps: Seq<Speaker>, k: int) -> Option<int>
    decreases sps.len() - k,
{
    if k < 0 || k >= sps.len() {
        None
    } else if is_default_speaker(sps[k]) {
        Some(k)
    } else {
        first_default_speaker(sps, k + 1)
    }
}

/// The first style at index `k` or later whose name says it is the normal
/// one.
pub open spec fn first_normal_style(styles: Seq<SpeakerStyle>, k: int) -> Option<int>
    decreases styles.len() - k,
{
    if k < 0 || k >= styles.len() {
        None
    } else if contains_seq(styles[k].name@, NORMAL_STYLE_NAME@) {
        Some(k)
    } else {
        first_normal_style(styles, k + 1)
    }
}

/// The normal style of a speaker, else its first style.
pub open spec fn preferred_style(styles: Seq<SpeakerStyle>) -> Option<i64> {
    match first_normal_style(styles, 0) {
        Some(i) => Some(styles[i].id),
        None => if styles.len() > 0 {
            Some(styles[0].id)
        } else {
            None
        },
    }
}

/// The preferred style of the first default speaker.
pub open spec fn default_style(sps: Seq<Speaker>) -> Option<i64> {
    match first_default_speaker(sps, 0) {
        Some(i) => preferred_style(sps[i].styles@),
        None => None,
    }
}

fn is_default(sp: &Speaker) -> (r: bool)
    ensures
        r == is_default_speaker(*sp),
{
    let uuid = String::from_str(DEFAULT_SPEAKER_UUID);
    sp.speaker_uuid == uuid || str_contains(sp.name.as_str(), DEFAULT_SPEAKER_NAME)
}

/// Picks the default voice style: of the first speaker that is the default
/// speaker, its normal style, else its first style.
pub fn find_default_style(speakers: &Vec<Speaker>) -> (r: Option<i64>)
    ensures
        r == default_style(speakers@),
{
    let mut i: usize = 0;
    while i < speakers.len()
        invariant
            i <= speakers.len(),
            first_default_speaker(speakers@, 0) == first_default_speaker(speakers@, i as int),
        decreases speakers.len() - i,
    {
        if is_default(&speakers[i]) {
            assert(first_default_speaker(speakers@, 0) == Some(i as int));
            let styles = &speakers[i].styles;
            let mut j: usize = 0;
            while j < styles.len()
                invariant
                    j <= styles.len(),
                    i < speakers.len(),
                    first_default_speaker(speakers@, 0) == Some(i as int),
                    styles@ == speakers@[i as int].styles@,
                    first_normal_style(styles@, 0) == first_normal_style(styles@, j as int),
                decreases styles.len() - j,
            {
                if str_contains(styles[j].name.as_str(), NORMAL_STYLE_NAME) {
                    return Some(styles[j].id);
                }
                j += 1;
            }
            if styles.len() > 0 {
                return Some(styles[0].id);
            }
            return None;
        }
        i += 1;
    }
    None
}

/// The ids of all styles of all speakers, speaker by speaker.
pub open spec fn style_ids(sps: Seq<Speaker>) -> Seq<i64>
    decreases sps.len(),
{
    if sps.len() == 0 {
        Seq::empty()
    } else {
        style_ids(sps.drop_last()) + sps.last().styles@.map_values(|st: SpeakerStyle| st.id)
    }
}

/// Lists the ids of all styles of all speakers.
pub fn list_style_ids(speakers: &Vec<Speaker>) -> (r: Vec<i64>)
    ensures
        r@ == style_ids(speakers@),
{
    let mut ids: Vec<i64> = Vec::new();
    let mut i: usize = 0;
    while i < speakers.len()
        invariant
            i <= speakers.len(),
            ids@ == style_ids(speakers@.subrange(0, i as int)),
        decreases speakers.len() - i,
    {
        assert(speakers@.subrange(0, i as int + 1).drop_last() == speakers@.subrange(0, i as int));
        let styles = &speakers[i].styles;
        let ghost before = ids@;
        let mut j: usize = 0;
        while j < styles.len()
            invariant
                j <= styles.len(),
                ids@ == before + styles@.subrange(0, j as int).map_values(|st: SpeakerStyle| st.id),
            decreases styles.len() - j,
        {
            ids.push(styles[j].id);
            assert(styles@.subrange(0, j as int + 1).map_values(|st: SpeakerStyle| st.id)
                =~= styles@.subrange(0, j as int).map_values(|st: SpeakerStyle| st.id).push(
                styles@[j as int].id,
            ));
            j += 1;
        }
        assert(styles@.subrange(0, styles.len() as int) == styles@);
        i += 1;
    }
    assert(speakers@.subrange(0, speakers.len() as int) == speakers@);
    ids
}

/// How a message is to be synthesized.
#[derive(Debug, Clone, Copy, PartialEq, Eq, Structural)]
pub enum VoiceChoice {
    Preset(PresetId),
    Style(i64),
}

/// No preset and no style is available.
#[derive(Debug, Clone, Copy, PartialEq, Eq, Structural)]
pub enum VoiceError {
    NoVoiceAvailable,
}

/// The voice of a message: the user's stored preset while the service
/// still offers it; else the default speaker's style; else the first
/// preset; else the first style; else none.
pub open spec fn resolve_spec(stored: Option<i64>, presets: Seq<PresetId>, sps: Seq<Speaker>) -> Option<
    VoiceChoice,
> {
    if stored is Some && presets.contains(PresetId(stored->0)) {
        Some(VoiceChoice::Preset(PresetId(stored->0)))
    } else if default_style(sps) is Some {
        Some(VoiceChoice::Style(default_style(sps)->0))
    } else if presets.len() > 0 {
        Some(VoiceChoice::Preset(presets[0]))
    } else if style_ids(sps).len() > 0 {
        Some(VoiceChoice::Style(style_ids(sps)[0]))
    } else {
        None
    }
}

/// Chooses the voice for a message from the user's stored preset (if any),
/// the presets the service offers now and its speakers.
pub fn resolve_voice(stored: Option<i64>, presets: &Vec<PresetId>, speakers: &Vec<Speaker>) -> (r:
    Result<VoiceChoice, VoiceError>)
    ensures
        r matches Ok(c) ==> resolve_spec(stored, presets@, speakers@) == Some(c),
        r is Err <==> resolve_spec(stored, presets@, speakers@) is None,
{
    match stored {
        Some(id) => {
            let mut i: usize = 0;
            while i < presets.len()
                invariant
                    i <= presets.len(),
                    stored == Some(id),
                    forall|j: int| 0 <= j < i ==> presets@[j] != PresetId(id),
                decreases presets.len() - i,
            {
                if presets[i].0 == id {
                    assert(presets@[i as int] == PresetId(id));
                    assert(presets@.contains(PresetId(id)));
                    return Ok(VoiceChoice::Preset(PresetId(id)));
                }
                i += 1;
            }
        },
        None => {},
    }
    match find_default_style(speakers) {
        Some(style) => {
            return Ok(VoiceChoice::Style(style));
        },
        None => {},
    }
    if presets.len() > 0 {
        return Ok(VoiceChoice::Preset(presets[0]));
    }
    let ids = list_style_ids(speakers);
    if ids.len() > 0 {
        Ok(VoiceChoice::Style(ids[0]))
    } else {
        Err(VoiceError::NoVoiceAvailable)
    }
}

} // verus!
