use vstd::prelude::*;

verus! {

/// Whether the player is playing, paused or stopped.
#[derive(Clone, Copy, Debug, PartialEq, Eq, Structural)]
pub enum PlaybackStatus {
    Playing,
    Paused,
    Stopped,
}

/// What the player repeats when it reaches the end of a track.
#[derive(Clone, Copy, Debug, PartialEq, Eq, Structural)]
pub enum LoopStatus {
    Off,
    Track,
    Playlist,
}

/// A volume level, held as the bit pattern of a 64-bit IEEE 754 number, so
/// that it passes through the library unchanged.
#[derive(Clone, Copy, Debug, PartialEq, Eq, Structural)]
pub struct Volume {
    pub bits: u64,
}

/// The bit pattern of 1.0: sign 0, biased exponent 1023, mantissa 0.
pub const FULL_VOLUME_BITS: u64 = 0x3FF0_0000_0000_0000;

impl Volume {
    /// The volume a player is taken to have when it does not report one.
    pub fn full() -> (v: Volume)
        ensures
            v.bits == FULL_VOLUME_BITS,
    {
        Volume { bits: FULL_VOLUME_BITS }
    }
}

/// What the library reads of the current track. A field the player did not
/// report is `None`.
#[derive(Clone, Debug, PartialEq, Eq)]
pub struct Metadata {
    pub track_id: Option<String>,
    pub title: Option<String>,
    pub artists: Option<Vec<String>>,
    pub album_name: Option<String>,
    pub art_url: Option<String>,
    pub length_in_microseconds: Option<u64>,
}

pub ghost struct MetadataView {
    pub track_id: Option<Seq<char>>,
    pub title: Option<Seq<char>>,
    pub artists: Option<Seq<Seq<char>>>,
    pub album_name: Option<Seq<char>>,
    pub art_url: Option<Seq<char>>,
    pub length_in_microseconds: Option<u64>,
}

pub open spec fn text_of(o: Option<String>) -> Option<Seq<char>> {
    match o {
        Some(s) => Some(s@),
        None => None,
    }
}

pub open spec fn texts_of(o: Option<Vec<String>>) -> Option<Seq<Seq<char>>> {
    match o {
        Some(v) => Some(v.deep_view()),
        None => None,
    }
}

impl View for Metadata {
    type V = MetadataView;

    open spec fn view(&self) -> MetadataView {
        MetadataView {
            track_id: text_of(self.track_id),
            title: text_of(self.title),
            artists: texts_of(self.artists),
            album_name: text_of(self.album_name),
            art_url: text_of(self.art_url),
            length_in_microseconds: self.length_in_microseconds,
        }
    }
}

pub open spec fn empty_metadata() -> MetadataView {
    MetadataView {
        track_id: None,
        title: None,
        artists: None,
        album_name: None,
        art_url: None,
        length_in_microseconds: None,
    }
}

impl Default for Metadata {
    fn default() -> (m: Metadata)
        ensures
            m@ == empty_metadata(),
    {
        Metadata {
            track_id: None,
            title: None,
            artists: None,
            album_name: None,
            art_url: None,
            length_in_microseconds: None,
        }
    }
}

/// One snapshot of a player.
#[derive(Clone, Debug, PartialEq, Eq)]
pub struct PlayerState {
    pub metadata: Metadata,
    pub playback_status: PlaybackStatus,
    pub loop_status: LoopStatus,
    pub shuffle: bool,
    pub volume: Volume,
}

pub ghost struct PlayerStateView {
    pub metadata: MetadataView,
    pub playback_status: PlaybackStatus,
    pub loop_status: LoopStatus,
    pub shuffle: bool,
    pub volume: Volume,
}

impl View for PlayerState {
    type V = PlayerStateView;

    open spec fn view(&self) -> PlayerStateView {
        PlayerStateView {
            metadata: self.metadata@,
            playback_status: self.playback_status,
            loop_status: self.loop_status,
            shuffle: self.shuffle,
            volume: self.volume,
        }
    }
}

/// What a player reports. The numbers that the player sends as 64-bit
/// IEEE 754 values are held as their bit patterns.
#[derive(Clone, Debug, PartialEq, Eq)]
pub enum PlayerEvent {
    PlayerShutDown,
    Paused,
    Playing,
    Stopped,
    LoopingChanged(LoopStatus),
    ShuffleToggled(bool),
    VolumeChanged(Volume),
    PlaybackRateChanged(u64),
    TrackChanged(Metadata),
    Seeked { position_in_us: u64 },
    TrackAdded(String),
    TrackRemoved(String),
    TrackMetadataChanged { old_id: String, new_id: String },
    TrackListReplaced,
}

impl PlayerEvent {
    /// The events that concern the track list or the playback rate: they
    /// carry nothing that a snapshot holds.
    pub open spec fn spec_is_filtered(&self) -> bool {
        self is PlaybackRateChanged || self is TrackAdded || self is TrackRemoved
            || self is TrackMetadataChanged || self is TrackListReplaced
    }

    #[verifier::when_used_as_spec(spec_is_filtered)]
    pub fn is_filtered(&self) -> (b: bool)
        ensures
            b == self.spec_is_filtered(),
    {
        match self {
            PlayerEvent::PlaybackRateChanged(_) => true,
            PlayerEvent::TrackAdded(_) => true,
            PlayerEvent::TrackRemoved(_) => true,
            PlayerEvent::TrackMetadataChanged { .. } => true,
            PlayerEvent::TrackListReplaced => true,
            _ => false,
        }
    }
}

/// The snapshot that follows `s` when the player reports `e`, or `None`
/// when `e` ends the session.
pub open spec fn reduce(s: PlayerStateView, e: PlayerEvent) -> Option<PlayerStateView> {
    match e {
        PlayerEvent::PlayerShutDown => None,
        PlayerEvent::TrackChanged(m) => Some(PlayerStateView { metadata: m@, ..s }),
        PlayerEvent::Playing => Some(
            PlayerStateView { playback_status: PlaybackStatus::Playing, ..s },
        ),
        PlayerEvent::Paused => Some(
            PlayerStateView { playback_status: PlaybackStatus::Paused, ..s },
        ),
        PlayerEvent::Stopped => Some(
            PlayerStateView { playback_status: PlaybackStatus::Stopped, ..s },
        ),
        PlayerEvent::LoopingChanged(v) => Some(PlayerStateView { loop_status: v, ..s }),
        PlayerEvent::ShuffleToggled(v) => Some(PlayerStateView { shuffle: v, ..s }),
        PlayerEvent::VolumeChanged(v) => Some(PlayerStateView { volume: v, ..s }),
        _ => Some(s),
    }
}

/// The snapshot a listener starts from: each value as the player gave it,
/// and for one it could not give: no track, stopped, no loop, shuffle off,
/// full volume.
pub open spec fn initial_state(
    metadata: Option<Metadata>,
    playback_status: Option<PlaybackStatus>,
    loop_status: Option<LoopStatus>,
    shuffle: Option<bool>,
    volume: Option<Volume>,
) -> PlayerStateView {
    PlayerStateView {
        metadata: match metadata {
            Some(m) => m@,
            None => empty_metadata(),
        },
        playback_status: match playback_status {
            Some(s) => s,
            None => PlaybackStatus::Stopped,
        },
        loop_status: match loop_status {
            Some(l) => l,
            None => LoopStatus::Off,
        },
        shuffle: match shuffle {
            Some(b) => b,
            None => false,
        },
        volume: match volume {
            Some(v) => v,
            None => Volume { bits: FULL_VOLUME_BITS },
        },
    }
}

impl PlayerState {
    pub fn new(
        metadata: Option<Metadata>,
        playback_status: Option<PlaybackStatus>,
        loop_status: Option<LoopStatus>,
        shuffle: Option<bool>,
        volume: Option<Volume>,
    ) -> (state: PlayerState)
        ensures
            state@ == initial_state(metadata, playback_status, loop_status, shuffle, volume),
    {
        PlayerState {
            metadata: match metadata {
                Some(m) => m,
                None => Metadata::default(),
            },
            playback_status: match playback_status {
                Some(s) => s,
                None => PlaybackStatus::Stopped,
            },
            loop_status: match loop_status {
                Some(l) => l,
                None => LoopStatus::Off,
            },
            shuffle: match shuffle {
                Some(b) => b,
                None => false,
            },
            volume: match volume {
                Some(v) => v,
                None => Volume::full(),
            },
        }
    }

    /// Applies one event: `None` when the player shut down, else the next
    /// snapshot.
    pub fn handle_event(self, event: PlayerEvent) -> (next: Option<PlayerState>)
        ensures
            next is Some <==> !(event is PlayerShutDown),
            match next {
                Some(state) => Some(state@) == reduce(self@, event),
                None => reduce(self@, event) is None,
            },
            event.spec_is_filtered() || event is Seeked ==> next == Some(self),
    {
        let mut state = self;
        match event {
            PlayerEvent::PlayerShutDown => {
                return None;
            },
            PlayerEvent::TrackChanged(metadata) => {
                state.metadata = metadata;
            },
            PlayerEvent::Playing => {
                state.playback_status = PlaybackStatus::Playing;
            },
            PlayerEvent::Paused => {
                state.playback_status = PlaybackStatus::Paused;
            },
            PlayerEvent::Stopped => {
                state.playback_status = PlaybackStatus::Stopped;
            },
            PlayerEvent::LoopingChanged(status) => {
                state.loop_status = status;
            },
            PlayerEvent::ShuffleToggled(status) => {
                state.shuffle = status;
            },
            PlayerEvent::VolumeChanged(volume) => {
                state.volume = volume;
            },
            PlayerEvent::Seeked { .. } => {},
            PlayerEvent::TrackAdded(_)
            | PlayerEvent::TrackRemoved(_)
            | PlayerEvent::TrackMetadataChanged { .. }
            | PlayerEvent::TrackListReplaced => {},
            PlayerEvent::PlaybackRateChanged(_) => {},
        }
        Some(state)
    }
}

/// The snapshot after all of `events`, applied to `s` from the first to the
/// last; `None` once one of them has ended the session.
pub open spec fn reduce_all(s: PlayerStateView, events: Seq<PlayerEvent>) -> Option<
    PlayerStateView,
>
    decreases events.len(),
{
    if events.len() == 0 {
        Some(s)
    } else {
        match reduce_all(s, events.drop_last()) {
            Some(t) => reduce(t, events.last()),
            None => None,
        }
    }
}

/// The parts of a snapshot.
#[derive(Clone, Copy, Debug, PartialEq, Eq, Structural)]
pub enum Field {
    Metadata,
    PlaybackStatus,
    LoopStatus,
    Shuffle,
    Volume,
}

/// Whether `e` carries a new value for the field `f`.
pub open spec fn targets(e: PlayerEvent, f: Field) -> bool {
    match f {
        Field::Metadata => e is TrackChanged,
        Field::PlaybackStatus => e is Playing || e is Paused || e is Stopped,
        Field::LoopStatus => e is LoopingChanged,
        Field::Shuffle => e is ShuffleToggled,
        Field::Volume => e is VolumeChanged,
    }
}

/// Whether the field `f` of `t` is the value that `e` carries for it.
pub open spec fn holds_value_of(t: PlayerStateView, f: Field, e: PlayerEvent) -> bool {
    match (f, e) {
        (Field::Metadata, PlayerEvent::TrackChanged(m)) => t.metadata == m@,
        (Field::PlaybackStatus, PlayerEvent::Playing) => t.playback_status
            == PlaybackStatus::Playing,
        (Field::PlaybackStatus, PlayerEvent::Paused) => t.playback_status
            == PlaybackStatus::Paused,
        (Field::PlaybackStatus, PlayerEvent::Stopped) => t.playback_status
            == PlaybackStatus::Stopped,
        (Field::LoopStatus, PlayerEvent::LoopingChanged(v)) => t.loop_status == v,
        (Field::Shuffle, PlayerEvent::ShuffleToggled(v)) => t.shuffle == v,
        (Field::Volume, PlayerEvent::VolumeChanged(v)) => t.volume == v,
        _ => false,
    }
}

/// Whether `s` and `t` agree on the field `f`.
pub open spec fn same_field(s: PlayerStateView, t: PlayerStateView, f: Field) -> bool {
    match f {
        Field::Metadata => t.metadata == s.metadata,
        Field::PlaybackStatus => t.playback_status == s.playback_status,
        Field::LoopStatus => t.loop_status == s.loop_status,
        Field::Shuffle => t.shuffle == s.shuffle,
        Field::Volume => t.volume == s.volume,
    }
}

/// Whether no event of `events` ends the session.
pub open spec fn none_shuts_down(events: Seq<PlayerEvent>) -> bool {
    forall|i: int| 0 <= i < events.len() ==> !(#[trigger] events[i] is PlayerShutDown)
}

/// Whether `events[i]` is the last event of `events` that targets `f`.
pub open spec fn is_last_target(events: Seq<PlayerEvent>, f: Field, i: int) -> bool {
    &&& 0 <= i < events.len()
    &&& targets(events[i], f)
    &&& forall|j: int| i < j < events.len() ==> !targets(#[trigger] events[j], f)
}

/// Whether no event of `events` targets `f`.
pub open spec fn never_targets(events: Seq<PlayerEvent>, f: Field) -> bool {
    forall|i: int| 0 <= i < events.len() ==> !targets(#[trigger] events[i], f)
}

/// An event changes no field that it does not target.
pub proof fn lemma_event_keeps_untargeted_field(s: PlayerStateView, e: PlayerEvent, f: Field)
    requires
        !(e is PlayerShutDown),
        !targets(e, f),
    ensures
        reduce(s, e) is Some,
        same_field(s, reduce(s, e)->0, f),
{
}

/// An event that targets a field leaves in it the value that it carries.
pub proof fn lemma_event_sets_targeted_field(s: PlayerStateView, e: PlayerEvent, f: Field)
    requires
        targets(e, f),
    ensures
        reduce(s, e) is Some,
        holds_value_of(reduce(s, e)->0, f, e),
{
}

/// An event about the track list or the playback rate changes no field.
pub proof fn lemma_filtered_event_changes_nothing(s: PlayerStateView, e: PlayerEvent)
    requires
        e.spec_is_filtered(),
    ensures
        reduce(s, e) == Some(s),
{
}

/// Events that do not end the session always lead to a snapshot.
pub proof fn lemma_reduce_all_some(s: PlayerStateView, events: Seq<PlayerEvent>)
    requires
        none_shuts_down(events),
    ensures
        reduce_all(s, events) is Some,
    decreases events.len(),
{
    if events.len() > 0 {
        let front = events.drop_last();
        assert forall|i: int| 0 <= i < front.len() implies !(#[trigger] front[i]
            is PlayerShutDown) by {
            assert(front[i] == events[i]);
        }
        lemma_reduce_all_some(s, front);
        assert(!(events[events.len() - 1] is PlayerShutDown));
    }
}

/// After any events that do not end the session, a field holds the value
/// carried by the last event that targets it.
pub proof fn lemma_last_event_wins(
    s: PlayerStateView,
    events: Seq<PlayerEvent>,
    f: Field,
    i: int,
)
    requires
        none_shuts_down(events),
        is_last_target(events, f, i),
    ensures
        reduce_all(s, events) is Some,
        holds_value_of(reduce_all(s, events)->0, f, events[i]),
    decreases events.len(),
{
    let front = events.drop_last();
    let last = events.last();
    assert forall|k: int| 0 <= k < front.len() implies !(#[trigger] front[k]
        is PlayerShutDown) by {
        assert(front[k] == events[k]);
    }
    lemma_reduce_all_some(s, front);
    assert(!(events[events.len() - 1] is PlayerShutDown));
    let t = reduce_all(s, front)->0;
    if i == events.len() - 1 {
        lemma_event_sets_targeted_field(t, last, f);
    } else {
        assert(!targets(events[events.len() - 1], f));
        assert forall|j: int| i < j < front.len() implies !targets(#[trigger] front[j], f) by {
            assert(front[j] == events[j]);
        }
        assert(front[i] == events[i]);
        lemma_last_event_wins(s, front, f, i);
        lemma_event_keeps_untargeted_field(t, last, f);
    }
}

/// After any events that do not end the session, a field that none of them
/// targets holds its first value.
pub proof fn lemma_untargeted_field_keeps_initial(
    s: PlayerStateView,
    events: Seq<PlayerEvent>,
    f: Field,
)
    requires
        none_shuts_down(events),
        never_targets(events, f),
    ensures
        reduce_all(s, events) is Some,
        same_field(s, reduce_all(s, events)->0, f),
    decreases events.len(),
{
    if events.len() > 0 {
        let front = events.drop_last();
        assert forall|k: int| 0 <= k < front.len() implies !(#[trigger] front[k]
            is PlayerShutDown) && !targets(front[k], f) by {
            assert(front[k] == events[k]);
        }
        lemma_untargeted_field_keeps_initial(s, front, f);
        assert(!(events[events.len() - 1] is PlayerShutDown));
        assert(!targets(events[events.len() - 1], f));
        lemma_event_keeps_untargeted_field(reduce_all(s, front)->0, events.last(), f);
    }
}

/// A shutdown ends the session whatever the snapshot is.
pub proof fn lemma_shutdown_terminates(s: PlayerStateView)
    ensures
        reduce(s, PlayerEvent::PlayerShutDown) is None,
{
}

/// Once an event has ended the session, no later event brings a snapshot
/// back: events that hold a shutdown lead to none.
pub proof fn lemma_shutdown_is_final(s: PlayerStateView, events: Seq<PlayerEvent>, i: int)
    requires
        0 <= i < events.len(),
        events[i] is PlayerShutDown,
    ensures
        reduce_all(s, events) is None,
    decreases events.len(),
{
    if i < events.len() - 1 {
        assert(events.drop_last()[i] == events[i]);
        lemma_shutdown_is_final(s, events.drop_last(), i);
    }
}

} // verus!
