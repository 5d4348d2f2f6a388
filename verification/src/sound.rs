//! App-wide output preferences: the volume steps of the settings menu, mute,
//! and the performance overlay.

use vstd::prelude::*;

verus! {

/// Loudness below which the volume moves by single percents.
pub const FINE_VOLUME_LIMIT: i32 = 20;

/// The volume after one step in `direction`: single percents up to 20, then
/// five-percent stops up to 100; down never below 0, and from above 20 never
/// below 20. A zero direction keeps the volume.
pub open spec fn next_volume(percent: int, direction: int) -> int {
    if direction > 0 {
        if percent < 20 {
            percent + 1
        } else {
            let up = (percent / 5 + 1) * 5;
            if up < 100 { up } else { 100 }
        }
    } else if direction < 0 {
        if percent <= 20 {
            if percent - 1 > 0 { percent - 1 } else { 0 }
        } else {
            let down = (percent - 1) / 5 * 5;
            if down > 20 { down } else { 20 }
        }
    } else {
        percent
    }
}

/// One step of the volume control.
pub fn next_volume_percent(percent: i32, direction: i32) -> (next: i32)
    requires
        direction > 0 ==> percent <= 2_147_483_644,
        direction < 0 ==> percent > i32::MIN,
    ensures
        next == next_volume(percent as int, direction as int),
{
    if direction > 0 {
        if percent < 20 {
            percent + 1
        } else {
            let up = (percent / 5 + 1) * 5;
            if up < 100 {
                up
            } else {
                100
            }
        }
    } else if direction < 0 {
        if percent <= 20 {
            if percent - 1 > 0 {
                percent - 1
            } else {
                0
            }
        } else {
            let down = (percent - 1) / 5 * 5;
            if down > 20 {
                down
            } else {
                20
            }
        }
    } else {
        percent
    }
}

/// The volumes that the control stops at: every percent up to 20, then
/// multiples of five up to 100.
pub open spec fn is_volume_stop(percent: int) -> bool {
    (0 <= percent <= 20) || (20 < percent <= 100 && percent % 5 == 0)
}

/// The volume stays within 0 to 100 percent, and steps go the way they are
/// asked to go.
pub proof fn lemma_volume_stays_in_range(percent: int, direction: int)
    requires
        0 <= percent <= 100,
    ensures
        0 <= next_volume(percent, direction) <= 100,
        direction > 0 ==> next_volume(percent, direction) >= percent,
        direction > 0 && percent < 100 ==> next_volume(percent, direction) > percent,
        direction < 0 ==> next_volume(percent, direction) <= percent,
        direction < 0 && percent > 0 ==> next_volume(percent, direction) < percent,
{
}

/// Between stops the control is reversible: a step up from a stop lands on a
/// stop, and a step down from there comes back; likewise down, then up.
pub proof fn lemma_volume_steps_are_reversible(percent: int)
    requires
        is_volume_stop(percent),
    ensures
        percent < 100 ==> is_volume_stop(next_volume(percent, 1)) && next_volume(
            next_volume(percent, 1),
            -1,
        ) == percent,
        percent > 0 ==> is_volume_stop(next_volume(percent, -1)) && next_volume(
            next_volume(percent, -1),
            1,
        ) == percent,
{
}

/// The saved audio preferences.
#[derive(Debug, Clone, Copy, PartialEq, Eq, Structural)]
pub struct AudioPreferences {
    /// Master volume in percent.
    pub volume_percent: i32,
    pub muted: bool,
}

/// The preferences the settings menu edits.
#[derive(Debug, Clone, Copy, PartialEq, Eq, Structural)]
pub struct AppPreferences {
    pub audio: AudioPreferences,
    /// The frame-rate overlay is shown.
    pub show_fps: bool,
}

/// Audio preferences with the volume clamped to 0..=100 percent.
pub open spec fn normalized_audio(audio: AudioPreferences) -> AudioPreferences {
    AudioPreferences {
        volume_percent: if audio.volume_percent < 0 {
            0
        } else if audio.volume_percent > 100 {
            100
        } else {
            audio.volume_percent
        },
        muted: audio.muted,
    }
}

impl AudioPreferences {
    /// The preferences with the volume clamped to 0..=100 percent.
    pub fn normalized(self) -> (audio: Self)
        ensures
            audio == normalized_audio(self),
    {
        AudioPreferences {
            volume_percent: if self.volume_percent < 0 {
                0
            } else if self.volume_percent > 100 {
                100
            } else {
                self.volume_percent
            },
            muted: self.muted,
        }
    }
}

/// A toggle's new value: a zero delta flips it, otherwise the delta's sign
/// sets it.
pub open spec fn toggled(current: bool, delta: int) -> bool {
    if delta == 0 {
        !current
    } else {
        delta > 0
    }
}

/// The audio preferences after adjusting row `index` by `delta`: row 0 steps
/// the volume, row 1 sets or flips mute; the volume is normalized first.
pub open spec fn adjusted_audio(audio: AudioPreferences, index: int, delta: int) -> AudioPreferences {
    let base = normalized_audio(audio);
    if index == 0 {
        AudioPreferences {
            volume_percent: next_volume(base.volume_percent as int, delta) as i32,
            ..base
        }
    } else if index == 1 {
        AudioPreferences { muted: toggled(base.muted, delta), ..base }
    } else {
        base
    }
}

/// Adjusts row `index` of the audio preferences by `delta`.
pub fn adjusted(audio: AudioPreferences, index: i32, delta: i32) -> (result: AudioPreferences)
    ensures
        result == adjusted_audio(audio, index as int, delta as int),
{
    let mut base = audio.normalized();
    if index == 0 {
        proof {
            lemma_volume_stays_in_range(base.volume_percent as int, delta as int);
        }
        base.volume_percent = next_volume_percent(base.volume_percent, delta);
    } else if index == 1 {
        base.muted = if delta == 0 {
            !base.muted
        } else {
            delta > 0
        };
    }
    base
}

/// Adjusts row `index` of the settings menu by `delta`: row 2 sets or flips
/// the overlay and leaves audio alone; other rows adjust audio and leave the
/// overlay alone. Returns whether anything changed.
pub fn adjust_settings(settings: &mut AppPreferences, index: i32, delta: i32) -> (changed: bool)
    ensures
        index == 2 ==> {
            &&& final(settings).show_fps == toggled(old(settings).show_fps, delta as int)
            &&& final(settings).audio == old(settings).audio
        },
        index != 2 ==> {
            &&& final(settings).audio == adjusted_audio(old(settings).audio, index as int, delta as int)
            &&& final(settings).show_fps == old(settings).show_fps
        },
        changed == (*final(settings) != *old(settings)),
{
    if index == 2 {
        let enabled = if delta == 0 {
            !settings.show_fps
        } else {
            delta > 0
        };
        let changed = enabled != settings.show_fps;
        settings.show_fps = enabled;
        changed
    } else {
        let audio = adjusted(settings.audio, index, delta);
        let changed = audio != settings.audio;
        settings.audio = audio;
        changed
    }
}

} // verus!
