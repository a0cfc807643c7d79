//! Hourly announcements: per-server settings and the decisions of each tick.
use crate::format::{decimal, decimal_text};
use crate::session::ConnectedGuildState;
use crate::store::{map_get, map_insert, map_new};
use vstd::prelude::*;

verus! {

/// A chime fetched from `source_url`, already decoded to playable samples.
#[derive(Debug, Clone)]
pub struct TimeSignalAudio {
    pub source_url: String,
    pub pcm: Vec<u8>,
}

/// The announcement settings of one server.
#[derive(Debug, Clone)]
pub struct TimeSignalConfig {
    pub enabled: bool,
    pub audio: Option<TimeSignalAudio>,
    /// The hour of day (0 to 23) announced last.
    pub last_announced_hour: Option<u8>,
}

impl Default for TimeSignalConfig {
    /// Enabled, with no chime, nothing announced yet.
    fn default() -> (r: Self)
        ensures
            r == Self::initial(),
    {
        TimeSignalConfig { enabled: true, audio: None, last_announced_hour: None }
    }
}

impl TimeSignalConfig {
    pub open spec fn initial() -> Self {
        TimeSignalConfig { enabled: true, audio: None, last_announced_hour: None }
    }

    /// Announcements switched over, and the hour guard cleared.
    pub open spec fn toggled(self) -> Self {
        TimeSignalConfig { enabled: !self.enabled, last_announced_hour: None, ..self }
    }

    /// The settings after the announcement of `hour` was posted.
    pub open spec fn announced(self, hour: u8) -> Self {
        TimeSignalConfig { last_announced_hour: Some(hour), ..self }
    }

    /// Due at `hour`: enabled, and `hour` not announced yet.
    pub open spec fn is_due(self, hour: u8) -> bool {
        self.enabled && self.last_announced_hour != Some(hour)
    }

    /// Switches announcements on or off, clears the hour guard, and returns
    /// whether they are now on.
    pub fn toggle(&mut self) -> (r: bool)
        ensures
            *final(self) == old(self).toggled(),
            r == final(self).enabled,
    {
        self.enabled = !self.enabled;
        self.last_announced_hour = None;
        self.enabled
    }

    /// The settings after a tick at `hour` that tried to announce: the hour
    /// is recorded only when the text was posted (whether the chime played
    /// does not matter).
    pub fn after_announcement(self, hour: u8, posted: bool) -> (r: Self)
        ensures
            posted ==> r == self.announced(hour),
            !posted ==> r == self,
    {
        let mut c = self;
        if posted {
            c.mark_announced(hour);
        }
        c
    }

    /// Records that `hour` was announced.
    pub fn mark_announced(&mut self, hour: u8)
        ensures
            *final(self) == old(self).announced(hour),
    {
        self.last_announced_hour = Some(hour);
    }
}

/// Toggling twice gives back the `enabled` it started from, and every toggle leaves
/// the hour guard cleared.
pub proof fn lemma_toggle_twice(c: TimeSignalConfig)
    ensures
        c.toggled().last_announced_hour is None,
        c.toggled().toggled().enabled == c.enabled,
        c.toggled().toggled().last_announced_hour is None,
        c.toggled().toggled().audio == c.audio,
{
}

/// A server to announce to: where the text goes, and the voice channel that
/// must hold a listener.
#[derive(Debug, Clone, Copy, PartialEq, Eq, Structural)]
pub struct AnnouncementTarget {
    pub guild_id: u64,
    pub text_channel: u64,
    pub voice_channel: u64,
}

/// The target that a server's session and settings give at `hour`: only a
/// due server whose session has joined a voice channel.
pub open spec fn target_for(guild_id: u64, s: ConnectedGuildState, c: TimeSignalConfig, hour: u8) -> Option<
    AnnouncementTarget,
> {
    if c.is_due(hour) && s.joined_voice_channel is Some {
        Some(
            AnnouncementTarget {
                guild_id,
                text_channel: s.bound_text_channel,
                voice_channel: s.joined_voice_channel->0,
            },
        )
    } else {
        None
    }
}

/// A session paired with its server's settings.
pub type Candidate = (u64, ConnectedGuildState, TimeSignalConfig);

/// The targets of the candidates at `hour`, in their order.
pub open spec fn targets(cands: Seq<Candidate>, hour: u8) -> Seq<AnnouncementTarget>
    decreases cands.len(),
{
    if cands.len() == 0 {
        Seq::empty()
    } else {
        let prev = targets(cands.drop_last(), hour);
        let c = cands.last();
        match target_for(c.0, c.1, c.2, hour) {
            Some(t) => prev.push(t),
            None => prev,
        }
    }
}

/// The targets of a tick at `hour`:`minute`; only the first minute of an
/// hour has any.
pub open spec fn tick_targets(cands: Seq<Candidate>, hour: u8, minute: u8) -> Seq<AnnouncementTarget> {
    if minute == 0 {
        targets(cands, hour)
    } else {
        Seq::empty()
    }
}

/// Picks the servers to announce to on a tick at `hour`:`minute`.
pub fn select_targets(cands: &Vec<Candidate>, hour: u8, minute: u8) -> (r: Vec<AnnouncementTarget>)
    ensures
        r@ == tick_targets(cands@, hour, minute),
{
    let mut r: Vec<AnnouncementTarget> = Vec::new();
    if minute != 0 {
        return r;
    }
    let mut i: usize = 0;
    while i < cands.len()
        invariant
            i <= cands.len(),
            r@ == targets(cands@.subrange(0, i as int), hour),
        decreases cands.len() - i,
    {
        let (guild_id, session, config) = (cands[i].0, cands[i].1, &cands[i].2);
        assert(cands@.subrange(0, i as int + 1).drop_last() == cands@.subrange(0, i as int));
        if config.enabled && config.last_announced_hour != Some(hour) {
            match session.joined_voice_channel {
                Some(voice_channel) => {
                    r.push(
                        AnnouncementTarget {
                            guild_id,
                            text_channel: session.bound_text_channel,
                            voice_channel,
                        },
                    );
                },
                None => {},
            }
        }
        i += 1;
    }
    assert(cands@.subrange(0, cands.len() as int) == cands@);
    r
}

/// `t` comes from a candidate whose session has joined `t`'s voice channel
/// and whose settings are due at `hour`.
pub open spec fn from_joined_candidate(cands: Seq<Candidate>, t: AnnouncementTarget, hour: u8) -> bool {
    exists|j: int|
        0 <= j < cands.len() && (#[trigger] cands[j]).0 == t.guild_id
            && cands[j].1.joined_voice_channel == Some(t.voice_channel) && cands[j].2.is_due(hour)
}

/// Every target comes from a candidate whose session has joined the
/// target's voice channel.
pub proof fn lemma_targets_joined(cands: Seq<Candidate>, hour: u8)
    ensures
        forall|k: int|
            0 <= k < targets(cands, hour).len() ==> from_joined_candidate(
                cands,
                #[trigger] targets(cands, hour)[k],
                hour,
            ),
    decreases cands.len(),
{
    if cands.len() > 0 {
        let init = cands.drop_last();
        lemma_targets_joined(init, hour);
        let ts = targets(cands, hour);
        assert forall|k: int| 0 <= k < ts.len() implies from_joined_candidate(
            cands,
            #[trigger] ts[k],
            hour,
        ) by {
            if k < targets(init, hour).len() {
                assert(ts[k] == targets(init, hour)[k]);
                assert(from_joined_candidate(init, ts[k], hour));
                let j = choose|j: int|
                    0 <= j < init.len() && (#[trigger] init[j]).0 == ts[k].guild_id
                        && init[j].1.joined_voice_channel == Some(ts[k].voice_channel)
                        && init[j].2.is_due(hour);
                assert(cands[j] == init[j]);
            } else {
                assert(cands[cands.len() - 1] == cands.last());
            }
        }
    }
}

/// A server whose session has joined no voice channel is never picked for
/// an announcement (the servers of a snapshot being distinct).
pub proof fn lemma_unjoined_never_selected(cands: Seq<Candidate>, hour: u8, minute: u8, i: int)
    requires
        0 <= i < cands.len(),
        cands[i].1.joined_voice_channel is None,
        forall|a: int, b: int|
            0 <= a < b < cands.len() ==> (#[trigger] cands[a]).0 != (#[trigger] cands[b]).0,
    ensures
        forall|k: int|
            0 <= k < tick_targets(cands, hour, minute).len() ==> (#[trigger] tick_targets(
                cands,
                hour,
                minute,
            )[k]).guild_id != cands[i].0,
{
    lemma_targets_joined(cands, hour);
}

/// Over the candidates paired from a session snapshot (each server at most
/// once), a server whose session has joined no voice channel is never
/// picked.
pub proof fn lemma_snapshot_unjoined_never_selected(
    snapshot: Seq<(u64, ConnectedGuildState)>,
    cands: Seq<Candidate>,
    hour: u8,
    minute: u8,
    i: int,
)
    requires
        0 <= i < snapshot.len(),
        snapshot[i].1.joined_voice_channel is None,
        forall|a: int, b: int|
            0 <= a < b < snapshot.len() ==> (#[trigger] snapshot[a]).0 != (#[trigger] snapshot[b]).0,
        cands.len() == snapshot.len(),
        forall|j: int|
            0 <= j < cands.len() ==> (#[trigger] cands[j]).0 == snapshot[j].0 && cands[j].1
                == snapshot[j].1,
    ensures
        forall|k: int|
            0 <= k < tick_targets(cands, hour, minute).len() ==> (#[trigger] tick_targets(
                cands,
                hour,
                minute,
            )[k]).guild_id != snapshot[i].0,
{
    assert forall|a: int, b: int| 0 <= a < b < cands.len() implies (#[trigger] cands[a]).0
        != (#[trigger] cands[b]).0 by {
        assert(snapshot[a].0 != snapshot[b].0);
    }
    assert(cands[i].1 == snapshot[i].1);
    lemma_unjoined_never_selected(cands, hour, minute, i);
}

/// On a tick at `hour` a due, voice-joined server with a listener is
/// announced to; once the announcement is recorded, no further tick in the
/// same hour announces to it again.
pub proof fn lemma_announces_once_per_hour(
    guild_id: u64,
    s: ConnectedGuildState,
    c: TimeSignalConfig,
    hour: u8,
)
    requires
        s.joined_voice_channel is Some,
        c.is_due(hour),
    ensures
        target_for(guild_id, s, c, hour) is Some,
        c.announced(hour).last_announced_hour == Some(hour),
        target_for(guild_id, s, c.announced(hour), hour) is None,
{
}

/// A member's voice state: the user, the voice channel the user is in (if
/// any) and whether the user is a bot account.
pub type MemberVoice = (u64, Option<u64>, bool);

/// A listener: a member in `voice_channel` who is neither this bot nor any
/// other bot.
pub open spec fn is_listener(v: MemberVoice, voice_channel: u64, bot_user: u64) -> bool {
    v.1 == Some(voice_channel) && v.0 != bot_user && !v.2
}

/// Whether a listener is in `voice_channel`.
pub open spec fn listener_present(voice_states: Seq<MemberVoice>, voice_channel: u64, bot_user: u64) -> bool {
    exists|i: int|
        0 <= i < voice_states.len() && is_listener(#[trigger] voice_states[i], voice_channel, bot_user)
}

/// Tells whether a participant other than a bot is in `voice_channel`.
pub fn has_listeners(voice_states: &Vec<MemberVoice>, voice_channel: u64, bot_user: u64) -> (r:
    bool)
    ensures
        r == listener_present(voice_states@, voice_channel, bot_user),
{
    let mut i: usize = 0;
    while i < voice_states.len()
        invariant
            i <= voice_states.len(),
            forall|j: int|
                0 <= j < i ==> !is_listener(#[trigger] voice_states@[j], voice_channel, bot_user),
        decreases voice_states.len() - i,
    {
        let (user, channel, is_bot) = voice_states[i];
        if channel == Some(voice_channel) && user != bot_user && !is_bot {
            return true;
        }
        i += 1;
    }
    false
}

/// Seconds east of UTC of the reference time zone (UTC+9).
pub const ZONE_OFFSET_SECS: i64 = 32400;

/// Hour of day and minute of `unix_secs` in the reference time zone.
pub open spec fn clock_of(unix_secs: int) -> (int, int) {
    let day_secs = (unix_secs + ZONE_OFFSET_SECS) % 86400;
    (day_secs / 3600, (day_secs % 3600) / 60)
}

/// Hour of day and minute of a Unix time in the reference time zone.
pub fn zone_clock(unix_secs: i64) -> (r: (u8, u8))
    ensures
        r.0 as int == clock_of(unix_secs as int).0,
        r.1 as int == clock_of(unix_secs as int).1,
        r.0 < 24,
        r.1 < 60,
{
    // a whole number of days that lifts every i64 above zero
    let lift: i128 = 86400 * 106751991167301;
    let shifted = unix_secs as i128 + ZONE_OFFSET_SECS as i128 + lift;
    let day_secs = (shifted as u128 % 86400) as u64;
    proof {
        assert(shifted as int % 86400 == (unix_secs as int + ZONE_OFFSET_SECS) % 86400) by {
            lemma_mod_shift(unix_secs as int + ZONE_OFFSET_SECS, 106751991167301);
        }
    }
    ((day_secs / 3600) as u8, ((day_secs % 3600) / 60) as u8)
}

proof fn lemma_mod_shift(x: int, k: int)
    requires
        k >= 0,
    ensures
        (x + 86400 * k) % 86400 == x % 86400,
    decreases k,
{
    if k > 0 {
        lemma_mod_shift(x, k - 1);
        assert((x + 86400 * k) % 86400 == (x + 86400 * (k - 1)) % 86400) by {
            assert(x + 86400 * k == (x + 86400 * (k - 1)) + 86400) by (nonlinear_arith);
        }
    }
}

/// The announcement posted for `hour`.
pub open spec fn announcement_spec(hour: u8) -> Seq<char> {
    decimal(hour as nat) + "時をお知らせします。"@
}

/// The text posted to announce `hour`.
pub fn announcement_text(hour: u8) -> (r: String)
    ensures
        r@ == announcement_spec(hour),
{
    decimal_text(hour as u64).concat("時をお知らせします。")
}

/// The largest chime accepted, in bytes.
pub const MAX_CHIME_BYTES: usize = 10 * 1024 * 1024;

/// Why a fetched chime was refused.
#[derive(Debug, Clone, Copy, PartialEq, Eq, Structural)]
pub enum ChimeError {
    Empty,
    TooLarge,
}

/// Accepts a fetched chime of `len` bytes: not empty, at most ten MiB.
pub fn check_chime_size(len: usize) -> (r: Result<(), ChimeError>)
    ensures
        len == 0 ==> r == Err::<(), ChimeError>(ChimeError::Empty),
        len > MAX_CHIME_BYTES ==> r == Err::<(), ChimeError>(ChimeError::TooLarge),
        0 < len <= MAX_CHIME_BYTES ==> r is Ok,
{
    if len == 0 {
        Err(ChimeError::Empty)
    } else if len > MAX_CHIME_BYTES {
        Err(ChimeError::TooLarge)
    } else {
        Ok(())
    }
}

/// The settings of a server given what is stored for it: the initial
/// settings when nothing is.
pub fn config_or_initial(found: Option<TimeSignalConfig>) -> (r: TimeSignalConfig)
    ensures
        r == match found {
            Some(c) => c,
            None => TimeSignalConfig::initial(),
        },
{
    match found {
        Some(c) => c,
        None => TimeSignalConfig::default(),
    }
}

/// The announcement settings of every server; a server without an entry
/// has the initial settings.
pub struct TimeSignalSettings {
    configs: dashmap::DashMap<u64, TimeSignalConfig>,
}

impl TimeSignalSettings {
    pub fn new() -> Self {
        TimeSignalSettings { configs: map_new() }
    }

    /// The settings of `guild_id` at the moment of the call.
    pub fn config(&self, guild_id: u64) -> TimeSignalConfig {
        config_or_initial(map_get(&self.configs, &guild_id))
    }

    /// Switches the announcements of `guild_id` on or off and returns
    /// whether they are now on.
    pub fn toggle_for_guild(&self, guild_id: u64) -> bool {
        let mut c = self.config(guild_id);
        let enabled = c.toggle();
        map_insert(&self.configs, guild_id, c);
        enabled
    }

    /// Sets the chime of `guild_id`.
    pub fn set_audio(&self, guild_id: u64, audio: TimeSignalAudio) {
        let mut c = self.config(guild_id);
        c.audio = Some(audio);
        map_insert(&self.configs, guild_id, c);
    }

    /// Removes the chime of `guild_id`, if it has settings.
    pub fn clear_audio(&self, guild_id: u64) {
        match map_get(&self.configs, &guild_id) {
            Some(c) => {
                let mut c = c;
                c.audio = None;
                map_insert(&self.configs, guild_id, c);
            },
            None => {},
        }
    }

    /// Ends an announcement attempt at `hour` for `guild_id`: the hour is
    /// recorded only if the text was posted; otherwise nothing is written.
    pub fn finish_announcement(&self, guild_id: u64, hour: u8, posted: bool) {
        if posted {
            let c = self.config(guild_id).after_announcement(hour, posted);
            map_insert(&self.configs, guild_id, c);
        }
    }

    /// Pairs each session of a snapshot with its server's settings, in the
    /// snapshot's order.
    pub fn candidates(&self, snapshot: &Vec<(u64, ConnectedGuildState)>) -> (r: Vec<Candidate>)
        ensures
            r.len() == snapshot.len(),
            forall|i: int|
                0 <= i < r.len() ==> (#[trigger] r@[i]).0 == snapshot@[i].0 && r@[i].1
                    == snapshot@[i].1,
    {
        let mut r: Vec<Candidate> = Vec::new();
        let mut i: usize = 0;
        while i < snapshot.len()
            invariant
                i <= snapshot.len(),
                r.len() == i,
                forall|j: int|
                    0 <= j < i ==> (#[trigger] r@[j]).0 == snapshot@[j].0 && r@[j].1
                        == snapshot@[j].1,
            decreases snapshot.len() - i,
        {
            let (guild_id, session) = snapshot[i];
            r.push((guild_id, session, self.config(guild_id)));
            i += 1;
        }
        r
    }
}

} // verus!
