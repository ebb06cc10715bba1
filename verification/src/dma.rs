//! What the polling producer decides between its reads.
//!
//! The producer owns a [`CsData`], the working picture of the match, and a
//! [`PollState`], what it remembers from one iteration to the next. Every
//! read of the target process and of the clock is made by the caller, who
//! hands the result to the functions here and acts on what they answer.
//!
//! Clock readings are milliseconds on a monotonic clock of the caller's
//! choice; durations are milliseconds too.

use vstd::prelude::*;
use vstd::string::*;
use crate::comms::{BombData, BombView, EntityData, EntityView, PlayerData, PlayerView, RadarData,
    RadarView, CheatOptions, entity_views};
use crate::enums::PlayerType;
use crate::structs::Vec3;
use crate::text::str_eq;

verus! {

/// Addresses are refreshed when this much time has passed since the last
/// refresh.
pub const REFRESH_INTERVAL_MS: u64 = 10_000;

/// Length of the window over which iterations are counted.
pub const FREQ_WINDOW_MS: u64 = 1_000;

/// Time from `stamp` to `now`; zero where the clock reads earlier than the
/// stamp.
pub open spec fn elapsed_since(stamp: u64, now: u64) -> u64 {
    if now >= stamp {
        (now - stamp) as u64
    } else {
        0
    }
}

/// What is left of `total` once `spent` has gone by, never below zero.
pub open spec fn remaining(total: u64, spent: u64) -> u64 {
    if total > spent {
        (total - spent) as u64
    } else {
        0
    }
}

pub fn elapsed(stamp: u64, now: u64) -> (r: u64)
    ensures
        r == elapsed_since(stamp, now),
{
    if now >= stamp {
        now - stamp
    } else {
        0
    }
}

/// Whether a map name means that a match is running.
pub open spec fn in_game(map: Seq<char>) -> bool {
    map.len() != 0 && map != "<empty>"@
}

/// The first of the candidates that carries the bomb, where `carrying` says
/// of each candidate, in order, whether it does.
pub open spec fn first_carrying(candidates: Seq<u64>, carrying: Seq<bool>) -> Option<u64>
    decreases candidates.len(),
{
    if candidates.len() == 0 || carrying.len() == 0 {
        None
    } else if carrying[0] {
        Some(candidates[0])
    } else {
        first_carrying(candidates.skip(1), carrying.skip(1))
    }
}

/// What one read of the per-tick globals returned.
pub struct CommonReading {
    pub map: String,
    pub tick_count: i32,
    pub freeze_period: bool,
    pub round_start_count: u8,
    pub bomb_dropped: bool,
    pub bomb_planted: bool,
    pub bomb_exploded: bool,
    pub bomb_defused: bool,
    pub bomb_being_defused: bool,
    pub bomb_plant_timer: u64,
    pub bomb_defuse_length: u64,
}

/// The three values derived from the bomb's two stamps.
#[derive(Clone, Copy, Debug, PartialEq, Eq, Structural)]
pub struct BombTimers {
    /// Time until the bomb goes off.
    pub time_left: u64,
    /// Whether a defuse under way ends before the bomb goes off.
    pub can_defuse: bool,
    /// Time that will be left on the bomb when the defuse ends.
    pub defuse_end: u64,
}

/// The producer's working picture of the match.
pub struct CsData {
    pub client_module: u64,
    pub entity_list: u64,
    pub local: u64,
    pub local_pawn: u64,
    /// The bomb entity.
    pub bomb: u64,
    /// Controller and pawn of every other player.
    pub players: Vec<(u64, u64)>,
    pub map: String,
    pub tick_count: i32,
    pub round_start_count: u8,
    pub freeze_period: bool,
    pub bomb_dropped: bool,
    pub bomb_planted: bool,
    pub bomb_exploded: bool,
    pub bomb_defused: bool,
    pub bomb_being_defused: bool,
    /// Pawn of the player who carries the bomb.
    pub bomb_holder: Option<u64>,
    /// Clock reading at which the bomb was first seen planted.
    pub bomb_planted_stamp: Option<u64>,
    /// Clock reading at which the defuse under way was first seen.
    pub bomb_defuse_stamp: Option<u64>,
    pub bomb_plant_timer: u64,
    pub bomb_defuse_length: u64,
    pub recheck_bomb_holder: bool,
    pub money_reveal_enabled: bool,
}

impl CsData {
    /// The bomb is planted and has neither gone off nor been defused.
    pub open spec fn bomb_live(&self) -> bool {
        self.bomb_planted && !self.bomb_exploded && !self.bomb_defused
    }

    /// Time until the bomb goes off: what is left of the plant timer while
    /// the bomb is live and stamped, zero at any other time.
    pub open spec fn time_left(&self, now: u64) -> u64 {
        if self.bomb_live() && self.bomb_planted_stamp is Some {
            remaining(self.bomb_plant_timer, elapsed_since(self.bomb_planted_stamp->0, now))
        } else {
            0
        }
    }

    /// Time until the defuse under way ends, zero where there is none.
    pub open spec fn defuse_left(&self, now: u64) -> u64 {
        if self.bomb_defuse_stamp is Some {
            remaining(self.bomb_defuse_length, elapsed_since(self.bomb_defuse_stamp->0, now))
        } else {
            0
        }
    }

    /// A defuse is under way on a live, stamped bomb and ends before the bomb
    /// goes off.
    pub open spec fn can_defuse(&self, now: u64) -> bool {
        &&& self.bomb_live()
        &&& self.bomb_planted_stamp is Some
        &&& self.bomb_defuse_stamp is Some
        &&& self.defuse_left(now) < self.time_left(now)
    }

    /// Time left on the bomb at the moment the defuse ends, zero where the
    /// defuse cannot make it.
    pub open spec fn defuse_end(&self, now: u64) -> u64 {
        if self.can_defuse(now) {
            (self.time_left(now) - self.defuse_left(now)) as u64
        } else {
            0
        }
    }

    pub open spec fn timers(&self, now: u64) -> BombTimers {
        BombTimers {
            time_left: self.time_left(now),
            can_defuse: self.can_defuse(now),
            defuse_end: self.defuse_end(now),
        }
    }

    /// The picture after one read of the per-tick globals at `now`.
    ///
    /// Every global is taken over. The plant stamp is set when the bomb is
    /// first seen planted and dropped when it no longer is; the defuse stamp
    /// likewise follows the defuse of a planted bomb.
    pub open spec fn after_common(self, reading: CommonReading, now: u64) -> CsData {
        CsData {
            map: reading.map,
            tick_count: reading.tick_count,
            freeze_period: reading.freeze_period,
            round_start_count: reading.round_start_count,
            bomb_dropped: reading.bomb_dropped,
            bomb_planted: reading.bomb_planted,
            bomb_exploded: reading.bomb_exploded,
            bomb_defused: reading.bomb_defused,
            bomb_being_defused: reading.bomb_being_defused,
            bomb_plant_timer: reading.bomb_plant_timer,
            bomb_defuse_length: reading.bomb_defuse_length,
            bomb_planted_stamp: if !reading.bomb_planted {
                None
            } else if self.bomb_planted_stamp is Some {
                self.bomb_planted_stamp
            } else {
                Some(now)
            },
            bomb_defuse_stamp: if !(reading.bomb_planted && reading.bomb_being_defused) {
                None
            } else if self.bomb_defuse_stamp is Some {
                self.bomb_defuse_stamp
            } else {
                Some(now)
            },
            ..self
        }
    }

    /// The picture after the holder search returned `found`: a bomb that was
    /// held by nobody and now is held has been picked up, so it no longer
    /// counts as dropped. The search is not repeated until flagged again.
    pub open spec fn after_holder(self, found: Option<u64>) -> CsData {
        CsData {
            bomb_holder: found,
            bomb_dropped: if found is Some && self.bomb_holder is None {
                false
            } else {
                self.bomb_dropped
            },
            recheck_bomb_holder: false,
            ..self
        }
    }

    /// The pawns among which the bomb's holder is searched: those of the
    /// other players in order, then the local one.
    pub open spec fn candidates(&self) -> Seq<u64> {
        self.players@.map_values(|p: (u64, u64)| p.1).push(self.local_pawn)
    }

    /// The picture at the producer's start: nothing resolved, no match, and
    /// the holder search flagged.
    pub fn new() -> (r: CsData)
        ensures
            r.client_module == 0,
            r.entity_list == 0,
            r.local == 0,
            r.local_pawn == 0,
            r.bomb == 0,
            r.players@.len() == 0,
            r.map@.len() == 0,
            r.tick_count == 0,
            r.round_start_count == 0,
            !r.freeze_period,
            !r.bomb_dropped,
            !r.bomb_planted,
            !r.bomb_exploded,
            !r.bomb_defused,
            !r.bomb_being_defused,
            r.bomb_holder is None,
            r.bomb_planted_stamp is None,
            r.bomb_defuse_stamp is None,
            r.bomb_plant_timer == 0,
            r.bomb_defuse_length == 0,
            r.recheck_bomb_holder,
            !r.money_reveal_enabled,
    {
        CsData {
            client_module: 0,
            entity_list: 0,
            local: 0,
            local_pawn: 0,
            bomb: 0,
            players: Vec::new(),
            map: String::new(),
            tick_count: 0,
            round_start_count: 0,
            freeze_period: false,
            bomb_dropped: false,
            bomb_planted: false,
            bomb_exploded: false,
            bomb_defused: false,
            bomb_being_defused: false,
            bomb_holder: None,
            bomb_planted_stamp: None,
            bomb_defuse_stamp: None,
            bomb_plant_timer: 0,
            bomb_defuse_length: 0,
            recheck_bomb_holder: true,
            money_reveal_enabled: false,
        }
    }

    /// Takes over one read of the per-tick globals made at `now`.
    pub fn update_common(&mut self, reading: CommonReading, now: u64)
        ensures
            *final(self) == old(self).after_common(reading, now),
    {
        self.map = reading.map;
        self.tick_count = reading.tick_count;
        self.freeze_period = reading.freeze_period;
        self.round_start_count = reading.round_start_count;
        self.bomb_dropped = reading.bomb_dropped;
        self.bomb_planted = reading.bomb_planted;
        self.bomb_exploded = reading.bomb_exploded;
        self.bomb_defused = reading.bomb_defused;
        self.bomb_being_defused = reading.bomb_being_defused;
        self.bomb_plant_timer = reading.bomb_plant_timer;
        self.bomb_defuse_length = reading.bomb_defuse_length;
        if !reading.bomb_planted {
            self.bomb_planted_stamp = None;
        } else if self.bomb_planted_stamp.is_none() {
            self.bomb_planted_stamp = Some(now);
        }
        if !(reading.bomb_planted && reading.bomb_being_defused) {
            self.bomb_defuse_stamp = None;
        } else if self.bomb_defuse_stamp.is_none() {
            self.bomb_defuse_stamp = Some(now);
        }
    }

    /// Takes over the money reveal switch as the clients last set it.
    /// Answers whether it changed, that is, whether the patch has to be
    /// toggled.
    pub fn sync_money_reveal(&mut self, requested: bool) -> (toggle: bool)
        ensures
            toggle == (requested != old(self).money_reveal_enabled),
            *final(self) == (CsData { money_reveal_enabled: requested, ..*old(self) }),
    {
        if requested != self.money_reveal_enabled {
            self.money_reveal_enabled = requested;
            true
        } else {
            false
        }
    }

    /// The pawns to hand to the holder search.
    pub fn holder_candidates(&self) -> (r: Vec<u64>)
        ensures
            r@ == self.candidates(),
    {
        let mut pawns: Vec<u64> = Vec::new();
        let mut i: usize = 0;
        while i < self.players.len()
            invariant
                i <= self.players@.len(),
                pawns@ == self.players@.take(i as int).map_values(|p: (u64, u64)| p.1),
            decreases self.players@.len() - i,
        {
            pawns.push(self.players[i].1);
            i += 1;
            assert(pawns@ =~= self.players@.take(i as int).map_values(|p: (u64, u64)| p.1));
        }
        assert(self.players@.take(i as int) =~= self.players@);
        pawns.push(self.local_pawn);
        pawns
    }

    /// Picks the holder among the candidates, given for each of them whether
    /// it was read to carry the bomb: the first that does. Candidates
    /// without a reading do not count.
    pub fn find_holder(candidates: &Vec<u64>, carrying: &Vec<bool>) -> (r: Option<u64>)
        ensures
            r == first_carrying(candidates@, carrying@),
    {
        let mut i: usize = 0;
        assert(candidates@.skip(0) =~= candidates@ && carrying@.skip(0) =~= carrying@);
        while i < candidates.len() && i < carrying.len()
            invariant
                i <= candidates@.len(),
                i <= carrying@.len(),
                forall|j: int| 0 <= j < i ==> !carrying@[j],
                first_carrying(candidates@, carrying@) == first_carrying(
                    candidates@.skip(i as int),
                    carrying@.skip(i as int),
                ),
            decreases candidates@.len() - i,
        {
            let ghost c = candidates@.skip(i as int);
            let ghost f = carrying@.skip(i as int);
            assert(c[0] == candidates@[i as int] && f[0] == carrying@[i as int]);
            assert(c.skip(1) =~= candidates@.skip(i + 1));
            assert(f.skip(1) =~= carrying@.skip(i + 1));
            if carrying[i] {
                return Some(candidates[i]);
            }
            i += 1;
        }
        None
    }

    /// Records what the holder search found.
    pub fn resolve_holder(&mut self, found: Option<u64>)
        ensures
            *final(self) == old(self).after_holder(found),
    {
        if found.is_some() && self.bomb_holder.is_none() {
            self.bomb_dropped = false;
        }
        self.bomb_holder = found;
        self.recheck_bomb_holder = false;
    }

    /// The bomb timers at `now`.
    pub fn bomb_timers(&self, now: u64) -> (r: BombTimers)
        ensures
            r == self.timers(now),
            r.time_left <= self.bomb_plant_timer,
            !r.can_defuse ==> r.defuse_end == 0,
            r.defuse_end <= r.time_left,
    {
        let live = self.bomb_planted && !self.bomb_exploded && !self.bomb_defused;
        let time_left: u64 = match self.bomb_planted_stamp {
            Some(stamp) => if live {
                let spent: u64 = elapsed(stamp, now);
                if self.bomb_plant_timer > spent {
                    self.bomb_plant_timer - spent
                } else {
                    0
                }
            } else {
                0
            },
            None => 0,
        };
        let defuse_left: u64 = match self.bomb_defuse_stamp {
            Some(stamp) => {
                let spent: u64 = elapsed(stamp, now);
                if self.bomb_defuse_length > spent {
                    self.bomb_defuse_length - spent
                } else {
                    0
                }
            },
            None => 0,
        };
        let can_defuse = live && self.bomb_planted_stamp.is_some()
            && self.bomb_defuse_stamp.is_some() && defuse_left < time_left;
        let defuse_end: u64 = if can_defuse {
            time_left - defuse_left
        } else {
            0
        };
        BombTimers { time_left, can_defuse, defuse_end }
    }

    /// Whether a match is running.
    pub fn is_ingame(&self) -> (r: bool)
        ensures
            r == in_game(self.map@),
    {
        !self.map.as_str().is_empty() && !str_eq(self.map.as_str(), "<empty>")
    }

    /// Whether the bomb lies somewhere on the map, so that its position is
    /// worth reading.
    pub fn wants_bomb_position(&self) -> (r: bool)
        ensures
            r == (self.bomb_dropped || self.bomb_planted),
    {
        self.bomb_dropped || self.bomb_planted
    }
}

/// The time left on the bomb never exceeds the plant timer and is zero
/// unless the bomb is live; a defuse that can make it ends with time to
/// spare, no more than is left now; one that cannot has its end at zero.
pub proof fn lemma_timer_bounds(data: CsData, now: u64)
    ensures
        data.time_left(now) <= data.bomb_plant_timer,
        !data.bomb_live() ==> data.time_left(now) == 0,
        !data.can_defuse(now) ==> data.defuse_end(now) == 0,
        data.can_defuse(now) ==> 0 < data.defuse_end(now) <= data.time_left(now),
{
}

/// What one batched read of a player returned.
pub struct PlayerReading {
    pub pawn: u64,
    pub pos: Vec3,
    pub yaw: u32,
    pub team: i32,
    pub health: u32,
    pub has_awp: bool,
    pub is_scoped: bool,
    pub player_name: String,
    pub weapon_id: i16,
    pub money: i32,
}

/// The side of a player on `team`, seen from a local player on
/// `local_team`: a teammate on the same team, an enemy on any other.
pub open spec fn side_of(local_team: i32, team: i32) -> PlayerType {
    if local_team != team {
        PlayerType::Enemy
    } else {
        PlayerType::Team
    }
}

/// The radar entry of a player as read, on the given side.
pub open spec fn shown(r: PlayerReading, side: PlayerType, has_bomb: bool) -> EntityView {
    EntityView::Player(
        PlayerView {
            pos: r.pos,
            yaw: r.yaw,
            player_type: side,
            has_bomb,
            has_awp: r.has_awp,
            is_scoped: r.is_scoped,
            player_name: r.player_name@,
            weapon_id: r.weapon_id,
            money: r.money,
            health: r.health,
        },
    )
}

/// Picks the readings of players who are alive.
pub open spec fn alive() -> spec_fn(PlayerReading) -> bool {
    |r: PlayerReading| r.health >= 1
}

/// The pawns of a run of readings, in order.
pub open spec fn pawns_of(readings: Seq<PlayerReading>) -> Seq<u64> {
    readings.map_values(|r: PlayerReading| r.pawn)
}

pub fn classify(local_team: i32, team: i32) -> (r: PlayerType)
    ensures
        r == side_of(local_team, team),
{
    if local_team != team {
        PlayerType::Enemy
    } else {
        PlayerType::Team
    }
}

fn show_player(r: &PlayerReading, side: PlayerType, has_bomb: bool) -> (e: EntityData)
    ensures
        e@ == shown(*r, side, has_bomb),
{
    EntityData::Player(
        PlayerData::new(
            r.pos,
            r.yaw,
            side,
            has_bomb,
            r.has_awp,
            r.is_scoped,
            r.player_name.clone(),
            r.weapon_id,
            r.money,
            r.health,
        ),
    )
}

impl CsData {
    /// Whether `pawn` is the one that carries the bomb.
    pub open spec fn carries(&self, pawn: u64) -> bool {
        self.bomb_holder == Some(pawn)
    }

    /// Turns the reading of another player into a radar entry.
    pub open spec fn show_other(&self, local_team: i32) -> spec_fn(PlayerReading) -> EntityView {
        |r: PlayerReading| shown(r, side_of(local_team, r.team), self.carries(r.pawn))
    }

    /// The bomb's entry: present while the bomb is dropped or planted and
    /// its position could be read.
    pub open spec fn bomb_part(&self, bomb_pos: Option<Vec3>) -> Seq<EntityView> {
        if (self.bomb_dropped || self.bomb_planted) && bomb_pos is Some {
            seq![EntityView::Bomb(BombView { pos: bomb_pos->0, is_planted: self.bomb_planted })]
        } else {
            Seq::empty()
        }
    }

    /// The local player's entry: present while the player is alive.
    pub open spec fn local_part(&self, local: PlayerReading) -> Seq<EntityView> {
        if local.health > 0 {
            seq![shown(local, PlayerType::Local, self.carries(self.local_pawn))]
        } else {
            Seq::empty()
        }
    }

    /// The entries of the other players: one for each who is alive, in the
    /// order read.
    pub open spec fn others_part(&self, local_team: i32, others: Seq<PlayerReading>) -> Seq<
        EntityView,
    > {
        others.filter(alive()).map_values(self.show_other(local_team))
    }

    /// Everything on the radar: the bomb, the local player, the others.
    pub open spec fn entities(
        &self,
        bomb_pos: Option<Vec3>,
        local: PlayerReading,
        others: Seq<PlayerReading>,
    ) -> Seq<EntityView> {
        self.bomb_part(bomb_pos) + self.local_part(local) + self.others_part(local.team, others)
    }

    /// The snapshot of a moment inside a match.
    pub open spec fn snapshot_view(
        &self,
        freq: u32,
        now: u64,
        bomb_pos: Option<Vec3>,
        local: PlayerReading,
        others: Seq<PlayerReading>,
    ) -> RadarView {
        RadarView {
            freq,
            ingame: true,
            bomb_planted: self.bomb_planted,
            bomb_exploded: self.bomb_exploded,
            bomb_being_defused: self.bomb_being_defused,
            bomb_can_defuse: self.can_defuse(now),
            bomb_defuse_length: self.bomb_defuse_length,
            bomb_defuse_timeleft: self.time_left(now),
            bomb_defuse_end: self.defuse_end(now),
            map_name: self.map@,
            entities: self.entities(bomb_pos, local, others),
            options: CheatOptions { reveal_money: false, display_money: true },
            money_reveal_enabled: self.money_reveal_enabled,
        }
    }

    /// Builds the radar's entries from what was read this tick: the bomb's
    /// position where it could be read, the local player, and the other
    /// players whose read succeeded.
    pub fn build_entities(
        &self,
        bomb_pos: Option<Vec3>,
        local: &PlayerReading,
        others: &Vec<PlayerReading>,
    ) -> (r: Vec<EntityData>)
        ensures
            entity_views(r@) == self.entities(bomb_pos, *local, others@),
    {
        let mut out: Vec<EntityData> = Vec::new();
        if self.bomb_dropped || self.bomb_planted {
            if let Some(pos) = bomb_pos {
                out.push(EntityData::Bomb(BombData::new(pos, self.bomb_planted)));
            }
        }
        assert(entity_views(out@) =~= self.bomb_part(bomb_pos));
        if local.health > 0 {
            let has_bomb = match self.bomb_holder {
                Some(holder) => self.local_pawn == holder,
                None => false,
            };
            out.push(show_player(local, PlayerType::Local, has_bomb));
        }
        let ghost head = self.bomb_part(bomb_pos) + self.local_part(*local);
        assert(entity_views(out@) =~= head);
        let mut i: usize = 0;
        while i < others.len()
            invariant
                i <= others@.len(),
                head == self.bomb_part(bomb_pos) + self.local_part(*local),
                entity_views(out@) == head + self.others_part(local.team, others@.take(i as int)),
            decreases others@.len() - i,
        {
            let ghost before = others@.take(i as int);
            let other = &others[i];
            proof {
                assert(others@.take(i + 1) =~= before.push(*other));
                before.lemma_filter_push(*other, alive());
            }
            if other.health >= 1 {
                let has_bomb = match self.bomb_holder {
                    Some(holder) => other.pawn == holder,
                    None => false,
                };
                let side = classify(local.team, other.team);
                let ghost shown_before = entity_views(out@);
                out.push(show_player(other, side, has_bomb));
                assert(entity_views(out@) =~= shown_before.push(
                    self.show_other(local.team)(*other),
                ));
                assert(self.others_part(local.team, before.push(*other))
                    =~= self.others_part(local.team, before).push(
                    self.show_other(local.team)(*other),
                ));
            }
            i += 1;
        }
        assert(others@.take(i as int) =~= others@);
        out
    }

    /// The snapshot to publish for a moment inside a match, from what was
    /// read this tick and the clock reading `now`. Without a reading of the
    /// local player there is none: the iteration is given up.
    pub fn snapshot(
        &self,
        freq: u32,
        now: u64,
        bomb_pos: Option<Vec3>,
        local: Option<&PlayerReading>,
        others: &Vec<PlayerReading>,
    ) -> (r: Option<RadarData>)
        ensures
            match local {
                Some(local) => r is Some && r->0@ == self.snapshot_view(
                    freq,
                    now,
                    bomb_pos,
                    *local,
                    others@,
                ),
                None => r is None,
            },
            r is Some ==> r->0@.consistent(),
    {
        let local = match local {
            Some(local) => local,
            None => {
                return None;
            },
        };
        let timers = self.bomb_timers(now);
        let entities = self.build_entities(bomb_pos, local, others);
        let mut radar = RadarData::new(
            true,
            self.map.clone(),
            entities,
            freq,
            self.bomb_planted,
            timers.can_defuse,
            timers.time_left,
            self.bomb_exploded,
            self.bomb_being_defused,
            self.bomb_defuse_length,
            timers.defuse_end,
        );
        radar.set_money_reveal(self.money_reveal_enabled);
        proof {
            lemma_snapshot_is_consistent(*self, freq, now, bomb_pos, *local, others@);
        }
        Some(radar)
    }

    /// The snapshot of a moment outside any match: at rest, but for the money
    /// reveal switch, which stands as the producer last saw it.
    pub open spec fn idle_view(&self, freq: u32) -> RadarView {
        RadarView { money_reveal_enabled: self.money_reveal_enabled, ..RadarView::empty(freq) }
    }

    /// The snapshot to publish while no match is running.
    pub fn idle_snapshot(&self, freq: u32) -> (r: RadarData)
        ensures
            r@ == self.idle_view(freq),
            r@.consistent(),
    {
        let mut radar = RadarData::empty(freq);
        radar.set_money_reveal(self.money_reveal_enabled);
        proof {
            lemma_idle_is_at_rest(*self, freq);
        }
        radar
    }
}

/// Outside a match the snapshot shows nothing: no entity, no map, no bomb
/// flag set and every bomb time at zero.
pub proof fn lemma_idle_is_at_rest(data: CsData, freq: u32)
    ensures
        !data.idle_view(freq).ingame,
        data.idle_view(freq).at_rest(),
        data.idle_view(freq).consistent(),
        data.idle_view(freq).carrier_count() == 0,
{
    let v = data.idle_view(freq);
    v.entities.lemma_filter_len(RadarView::is_bomb());
    v.entities.lemma_filter_len(RadarView::is_carrier());
}

/// None of the players' entries is a bomb, and every one of them has a known
/// side.
proof fn lemma_others_are_players(data: CsData, local_team: i32, others: Seq<PlayerReading>)
    ensures
        forall|i: int|
            0 <= i < data.others_part(local_team, others).len() ==> {
                &&& (#[trigger] data.others_part(local_team, others)[i]) is Player
                &&& data.others_part(local_team, others)[i]->Player_0.player_type
                    != PlayerType::Unknown
            },
{
}

/// A snapshot made inside a match shows at most one bomb and keeps the
/// timers within their bounds.
pub proof fn lemma_snapshot_is_consistent(
    data: CsData,
    freq: u32,
    now: u64,
    bomb_pos: Option<Vec3>,
    local: PlayerReading,
    others: Seq<PlayerReading>,
)
    ensures
        data.snapshot_view(freq, now, bomb_pos, local, others).consistent(),
{
    let bombs = RadarView::is_bomb();
    let b = data.bomb_part(bomb_pos);
    let l = data.local_part(local);
    let o = data.others_part(local.team, others);
    lemma_others_are_players(data, local.team, others);
    Seq::filter_distributes_over_add(b + l, o, bombs);
    Seq::filter_distributes_over_add(b, l, bombs);
    b.lemma_filter_len(bombs);
    assert(l.all(|e: EntityView| !bombs(e)));
    l.lemma_all_neg_filter_empty(bombs);
    assert(o.all(|e: EntityView| !bombs(e)));
    o.lemma_all_neg_filter_empty(bombs);
}

/// Every player on the radar has a known side.
pub proof fn lemma_sides_are_known(
    data: CsData,
    bomb_pos: Option<Vec3>,
    local: PlayerReading,
    others: Seq<PlayerReading>,
    i: int,
)
    requires
        0 <= i < data.entities(bomb_pos, local, others).len(),
        data.entities(bomb_pos, local, others)[i] is Player,
    ensures
        data.entities(bomb_pos, local, others)[i]->Player_0.player_type != PlayerType::Unknown,
{
    lemma_others_are_players(data, local.team, others);
}

/// Among the other players' entries at most one is marked as carrying the
/// bomb where no two of them share a pawn, and one is marked only where some
/// reading has the holder's pawn.
proof fn lemma_others_carriers(data: CsData, local_team: i32, others: Seq<PlayerReading>)
    requires
        pawns_of(others).no_duplicates(),
    ensures
        data.others_part(local_team, others).filter(RadarView::is_carrier()).len() <= 1,
        data.others_part(local_team, others).filter(RadarView::is_carrier()).len() == 1
            ==> exists|k: int| 0 <= k < others.len() && data.carries(#[trigger] others[k].pawn),
    decreases others.len(),
{
    let carrier = RadarView::is_carrier();
    if others.len() == 0 {
        assert(others.filter(alive()).len() == 0) by {
            others.lemma_filter_len(alive());
        }
        data.others_part(local_team, others).lemma_filter_len(carrier);
    } else {
        let init = others.drop_last();
        let x = others.last();
        assert(others =~= init.push(x));
        assert(pawns_of(init) =~= pawns_of(others).drop_last());
        lemma_others_carriers(data, local_team, init);
        init.lemma_filter_push(x, alive());
        let before = data.others_part(local_team, init);
        if x.health >= 1 {
            let entry = data.show_other(local_team)(x);
            assert(data.others_part(local_team, others) =~= before.push(entry));
            before.lemma_filter_push(entry, carrier);
            if data.carries(x.pawn) {
                if before.filter(carrier).len() == 1 {
                    let k = choose|k: int| 0 <= k < init.len() && data.carries(#[trigger] init[k].pawn);
                    assert(pawns_of(others)[k] == init[k].pawn);
                    assert(pawns_of(others)[others.len() - 1] == x.pawn);
                    assert(false);
                }
                assert(others[others.len() - 1].pawn == x.pawn);
            } else {
                if before.filter(carrier).len() == 1 {
                    let k = choose|k: int| 0 <= k < init.len() && data.carries(#[trigger] init[k].pawn);
                    assert(others[k].pawn == init[k].pawn);
                }
            }
        } else {
            assert(data.others_part(local_team, others) =~= before);
            if before.filter(carrier).len() == 1 {
                let k = choose|k: int| 0 <= k < init.len() && data.carries(#[trigger] init[k].pawn);
                assert(others[k].pawn == init[k].pawn);
            }
        }
    }
}

/// Where no two of the pawns read this tick are the same, the local one
/// included, at most one player on the radar is marked as carrying the bomb.
pub proof fn lemma_single_carrier(
    data: CsData,
    freq: u32,
    now: u64,
    bomb_pos: Option<Vec3>,
    local: PlayerReading,
    others: Seq<PlayerReading>,
)
    requires
        pawns_of(others).push(data.local_pawn).no_duplicates(),
    ensures
        data.snapshot_view(freq, now, bomb_pos, local, others).carrier_count() <= 1,
{
    let carrier = RadarView::is_carrier();
    let b = data.bomb_part(bomb_pos);
    let l = data.local_part(local);
    let o = data.others_part(local.team, others);
    let all = pawns_of(others).push(data.local_pawn);
    assert(pawns_of(others).no_duplicates()) by {
        assert forall|i: int, j: int|
            0 <= i < pawns_of(others).len() && 0 <= j < pawns_of(others).len() && i != j implies pawns_of(
            others,
        )[i] != pawns_of(others)[j] by {
            assert(all[i] == pawns_of(others)[i]);
            assert(all[j] == pawns_of(others)[j]);
        }
    }
    lemma_others_carriers(data, local.team, others);
    Seq::filter_distributes_over_add(b + l, o, carrier);
    Seq::filter_distributes_over_add(b, l, carrier);
    assert(b.all(|e: EntityView| !carrier(e)));
    b.lemma_all_neg_filter_empty(carrier);
    l.lemma_filter_len(carrier);
    if l.filter(carrier).len() == 1 && o.filter(carrier).len() == 1 {
        assert(l.len() == 1);
        assert(carrier(l[0])) by {
            if !carrier(l[0]) {
                assert(l.all(|e: EntityView| !carrier(e)));
                l.lemma_all_neg_filter_empty(carrier);
            }
        }
        let k = choose|k: int| 0 <= k < others.len() && data.carries(#[trigger] others[k].pawn);
        assert(all[k] == others[k].pawn);
        assert(all[others.len() as int] == data.local_pawn);
        assert(false);
    }
}

/// The reading behind a reference, if there is one.
pub open spec fn reading_of(local: Option<&PlayerReading>) -> Option<PlayerReading> {
    match local {
        Some(reading) => Some(*reading),
        None => None,
    }
}

/// Whatever an iteration publishes is consistent, and says that a match is
/// running exactly when one is. Outside a match it is the snapshot at rest:
/// no entity, and every bomb time at zero.
pub proof fn lemma_published_is_consistent(
    poll: PollState,
    data: CsData,
    now: u64,
    bomb_pos: Option<Vec3>,
    local: Option<PlayerReading>,
    others: Seq<PlayerReading>,
)
    requires
        poll.published(&data, now, bomb_pos, local, others) is Some,
    ensures
        poll.published(&data, now, bomb_pos, local, others)->0.consistent(),
        poll.published(&data, now, bomb_pos, local, others)->0.ingame == in_game(data.map@),
        !in_game(data.map@) ==> {
            &&& poll.published(&data, now, bomb_pos, local, others)->0.at_rest()
            &&& poll.published(&data, now, bomb_pos, local, others)->0.entities.len() == 0
            &&& poll.published(&data, now, bomb_pos, local, others)->0.bomb_defuse_length == 0
            &&& poll.published(&data, now, bomb_pos, local, others)->0.bomb_defuse_timeleft == 0
            &&& poll.published(&data, now, bomb_pos, local, others)->0.bomb_defuse_end == 0
        },
{
    lemma_idle_is_at_rest(data, poll.cadence.freq);
    if local is Some {
        lemma_snapshot_is_consistent(data, poll.cadence.freq, now, bomb_pos, local->0, others);
    }
}

/// Whatever an iteration publishes shows at most one bomb, and at most one
/// player who carries it where no two of the pawns read are the same, the
/// local one included.
pub proof fn lemma_published_one_bomb_one_carrier(
    poll: PollState,
    data: CsData,
    now: u64,
    bomb_pos: Option<Vec3>,
    local: Option<PlayerReading>,
    others: Seq<PlayerReading>,
)
    requires
        poll.published(&data, now, bomb_pos, local, others) is Some,
        pawns_of(others).push(data.local_pawn).no_duplicates(),
    ensures
        poll.published(&data, now, bomb_pos, local, others)->0.bomb_count() <= 1,
        poll.published(&data, now, bomb_pos, local, others)->0.carrier_count() <= 1,
{
    lemma_published_is_consistent(poll, data, now, bomb_pos, local, others);
    lemma_idle_is_at_rest(data, poll.cadence.freq);
    if local is Some {
        lemma_single_carrier(data, poll.cadence.freq, now, bomb_pos, local->0, others);
    }
}

/// What the producer is to do about publishing in this iteration.
#[derive(Clone, Copy, Debug, PartialEq, Eq, Structural)]
pub enum Publication {
    /// No match is running: publish the snapshot at rest.
    Idle,
    /// The game has not moved on since the last snapshot: publish nothing.
    Hold,
    /// Read the entities and publish a fresh snapshot.
    Build,
}

/// Counts the producer's iterations, one window after the other.
#[derive(Clone, Copy, Debug, PartialEq, Eq, Structural)]
pub struct Cadence {
    /// Clock reading at which the running window began.
    pub start_stamp: u64,
    /// Iterations counted in the running window. The count stops at the
    /// largest number it can hold.
    pub iters: u32,
    /// Iterations counted in the last window that was closed.
    pub freq: u32,
}

impl Cadence {
    /// One more iteration, the count staying where it is once it is full.
    pub open spec fn counted(iters: u32) -> u32 {
        if iters < u32::MAX {
            (iters + 1) as u32
        } else {
            iters
        }
    }

    /// The cadence after an iteration that ended at `now`: the iteration is
    /// counted, and where the window has run its length the count becomes
    /// the frequency and a new window begins at `now`.
    pub open spec fn after_tick(self, now: u64) -> Cadence {
        if elapsed_since(self.start_stamp, now) >= FREQ_WINDOW_MS {
            Cadence { start_stamp: now, iters: 0, freq: Self::counted(self.iters) }
        } else {
            Cadence { iters: Self::counted(self.iters), ..self }
        }
    }

    /// The cadence after a run of iterations that ended at the given clock
    /// readings, in order.
    pub open spec fn after_ticks(self, times: Seq<u64>) -> Cadence
        decreases times.len(),
    {
        if times.len() == 0 {
            self
        } else {
            self.after_ticks(times.drop_last()).after_tick(times.last())
        }
    }

    /// A cadence whose first window begins at `now`.
    pub fn new(now: u64) -> (r: Cadence)
        ensures
            r == (Cadence { start_stamp: now, iters: 0, freq: 0 }),
    {
        Cadence { start_stamp: now, iters: 0, freq: 0 }
    }

    /// Counts an iteration that ended at `now`.
    pub fn tick(&mut self, now: u64)
        ensures
            *final(self) == old(self).after_tick(now),
    {
        if self.iters < u32::MAX {
            self.iters = self.iters + 1;
        }
        if elapsed(self.start_stamp, now) >= FREQ_WINDOW_MS {
            self.freq = self.iters;
            self.iters = 0;
            self.start_stamp = now;
        }
    }
}

/// A count of iterations as the cadence holds it: the number itself, or
/// the largest that 32 bits hold where it is larger.
pub open spec fn held_count(count: int) -> u32 {
    if count < u32::MAX {
        count as u32
    } else {
        u32::MAX
    }
}

/// The frequency is the number of iterations of the last closed window.
///
/// While iterations end inside the running window they are counted and the
/// frequency stays what it was. The first iteration that ends at or after
/// the window's end makes the frequency the number of all iterations of the
/// window, itself included, and begins the next window with the count at
/// zero.
pub proof fn lemma_freq_counts_window(start: Cadence, inside: Seq<u64>, closing: u64)
    requires
        forall|i: int|
            0 <= i < inside.len() ==> elapsed_since(start.start_stamp, #[trigger] inside[i])
                < FREQ_WINDOW_MS,
        elapsed_since(start.start_stamp, closing) >= FREQ_WINDOW_MS,
    ensures
        start.after_ticks(inside) == (Cadence {
            iters: held_count(start.iters + inside.len()),
            ..start
        }),
        start.after_ticks(inside).after_tick(closing) == (Cadence {
            start_stamp: closing,
            iters: 0,
            freq: held_count(start.iters + inside.len() + 1),
        }),
    decreases inside.len(),
{
    if inside.len() > 0 {
        let init = inside.drop_last();
        assert forall|i: int| 0 <= i < init.len() implies elapsed_since(
            start.start_stamp,
            #[trigger] init[i],
        ) < FREQ_WINDOW_MS by {
            assert(init[i] == inside[i]);
        }
        lemma_freq_counts_window(start, init, closing);
    }
}

/// What the producer has to do in the target process before it can say what
/// to publish.
#[derive(Clone, Copy, Debug, PartialEq, Eq, Structural)]
pub struct IterationPlan {
    /// Toggle the money reveal patch.
    pub toggle_patch: bool,
    /// Resolve the bomb entity again.
    pub rescan_bomb: bool,
    /// Search the bomb's holder among the candidates.
    pub search_holder: bool,
}

/// What the producer remembers from one iteration to the next.
#[derive(Clone, Copy, Debug, PartialEq, Eq, Structural)]
pub struct PollState {
    pub last_bomb_dropped: bool,
    pub last_bomb_planted: bool,
    pub last_freeze_period: bool,
    pub last_round_start_count: u8,
    /// Tick counter at the last snapshot that was published.
    pub last_tick_count: i32,
    /// Clock reading of the last refresh of the addresses, if there was one.
    pub last_big_read: Option<u64>,
    pub cadence: Cadence,
}

impl PollState {
    /// The addresses are due for a refresh: they were never resolved, or not
    /// within the refresh interval.
    pub open spec fn refresh_is_due(&self, now: u64) -> bool {
        self.last_big_read is None || elapsed_since(self.last_big_read->0, now)
            >= REFRESH_INTERVAL_MS
    }

    /// The bomb was just dropped or just planted, so the bomb entity has to
    /// be resolved again.
    pub open spec fn bomb_rescan_is_due(&self, data: &CsData) -> bool {
        (data.bomb_dropped && !self.last_bomb_dropped) || (data.bomb_planted
            && !self.last_bomb_planted)
    }

    /// Something happened after which the bomb may have changed hands: a
    /// bomb flag flipped, the freeze period began or ended, or a round
    /// started.
    pub open spec fn holder_may_have_changed(&self, data: &CsData) -> bool {
        ||| data.bomb_dropped != self.last_bomb_dropped
        ||| data.bomb_planted != self.last_bomb_planted
        ||| data.freeze_period != self.last_freeze_period
        ||| data.round_start_count != self.last_round_start_count
    }

    /// What to do about publishing: rest outside a match, hold while the
    /// tick counter stands where it stood at the last snapshot, build
    /// otherwise.
    pub open spec fn publication(&self, data: &CsData) -> Publication {
        if !in_game(data.map@) {
            Publication::Idle
        } else if data.tick_count == self.last_tick_count {
            Publication::Hold
        } else {
            Publication::Build
        }
    }

    /// The memory of a producer that starts at `now`: nothing seen yet, the
    /// addresses never resolved, the first counting window beginning.
    pub fn new(now: u64) -> (r: PollState)
        ensures
            r == (PollState {
                last_bomb_dropped: false,
                last_bomb_planted: false,
                last_freeze_period: false,
                last_round_start_count: 0,
                last_tick_count: 0,
                last_big_read: None,
                cadence: Cadence { start_stamp: now, iters: 0, freq: 0 },
            }),
    {
        PollState {
            last_bomb_dropped: false,
            last_bomb_planted: false,
            last_freeze_period: false,
            last_round_start_count: 0,
            last_tick_count: 0,
            last_big_read: None,
            cadence: Cadence::new(now),
        }
    }

    /// Whether the addresses have to be resolved again at `now`.
    pub fn refresh_due(&self, now: u64) -> (r: bool)
        ensures
            r == self.refresh_is_due(now),
    {
        match self.last_big_read {
            None => true,
            Some(stamp) => elapsed(stamp, now) >= REFRESH_INTERVAL_MS,
        }
    }

    /// Notes that the addresses were resolved at `now`.
    pub fn mark_refreshed(&mut self, now: u64)
        ensures
            *final(self) == (PollState { last_big_read: Some(now), ..*old(self) }),
    {
        self.last_big_read = Some(now);
    }

    /// Whether the bomb entity has to be resolved again.
    pub fn bomb_rescan_due(&self, data: &CsData) -> (r: bool)
        ensures
            r == self.bomb_rescan_is_due(data),
    {
        (data.bomb_dropped && !self.last_bomb_dropped) || (data.bomb_planted
            && !self.last_bomb_planted)
    }

    /// Flags the holder search where the bomb may have changed hands, and
    /// remembers the freeze period and the round count as they now stand.
    /// A flag already set stays set.
    pub fn flag_holder_recheck(&mut self, data: &mut CsData)
        ensures
            *final(data) == (CsData {
                recheck_bomb_holder: old(data).recheck_bomb_holder || old(
                    self,
                ).holder_may_have_changed(old(data)),
                ..*old(data)
            }),
            *final(self) == (PollState {
                last_freeze_period: old(data).freeze_period,
                last_round_start_count: old(data).round_start_count,
                ..*old(self)
            }),
    {
        if data.bomb_dropped != self.last_bomb_dropped || data.bomb_planted
            != self.last_bomb_planted {
            data.recheck_bomb_holder = true;
        }
        if self.last_freeze_period != data.freeze_period {
            data.recheck_bomb_holder = true;
        }
        if self.last_round_start_count != data.round_start_count {
            data.recheck_bomb_holder = true;
        }
        self.last_freeze_period = data.freeze_period;
        self.last_round_start_count = data.round_start_count;
    }

    /// Remembers the bomb flags as they stand once the holder is resolved.
    pub fn remember_bomb(&mut self, data: &CsData)
        ensures
            *final(self) == (PollState {
                last_bomb_dropped: data.bomb_dropped,
                last_bomb_planted: data.bomb_planted,
                ..*old(self)
            }),
    {
        self.last_bomb_dropped = data.bomb_dropped;
        self.last_bomb_planted = data.bomb_planted;
    }

    /// What to do about publishing in this iteration.
    pub fn decide(&self, data: &CsData) -> (r: Publication)
        ensures
            r == self.publication(data),
    {
        if !data.is_ingame() {
            Publication::Idle
        } else if data.tick_count == self.last_tick_count {
            Publication::Hold
        } else {
            Publication::Build
        }
    }

    /// What this iteration publishes, if anything: the snapshot at rest
    /// outside a match, nothing while the tick counter stands, and otherwise
    /// the snapshot built from what was read, which takes a reading of the
    /// local player.
    pub open spec fn published(
        &self,
        data: &CsData,
        now: u64,
        bomb_pos: Option<Vec3>,
        local: Option<PlayerReading>,
        others: Seq<PlayerReading>,
    ) -> Option<RadarView> {
        match self.publication(data) {
            Publication::Idle => Some(data.idle_view(self.cadence.freq)),
            Publication::Hold => None,
            Publication::Build => match local {
                Some(local) => Some(
                    data.snapshot_view(self.cadence.freq, now, bomb_pos, local, others),
                ),
                None => None,
            },
        }
    }

    /// Makes the snapshot that this iteration publishes, if it publishes
    /// one. The readings count only where a snapshot is to be built; nothing
    /// has to be read for the other two answers.
    pub fn compose(
        &self,
        data: &CsData,
        now: u64,
        bomb_pos: Option<Vec3>,
        local: Option<&PlayerReading>,
        others: &Vec<PlayerReading>,
    ) -> (r: Option<RadarData>)
        ensures
            match self.published(data, now, bomb_pos, reading_of(local), others@) {
                Some(view) => r is Some && r->0@ == view,
                None => r is None,
            },
            r is Some ==> r->0@.consistent() && r->0@.ingame == in_game(data.map@),
    {
        match self.decide(data) {
            Publication::Idle => Some(data.idle_snapshot(self.cadence.freq)),
            Publication::Hold => None,
            Publication::Build => data.snapshot(self.cadence.freq, now, bomb_pos, local, others),
        }
    }

    /// The memory after an iteration that ended at `now`. Every iteration is
    /// counted; the tick counter is remembered where a snapshot was
    /// published.
    pub open spec fn after_iteration(self, data: &CsData, published: bool, now: u64) -> PollState {
        PollState {
            last_tick_count: if published {
                data.tick_count
            } else {
                self.last_tick_count
            },
            cadence: self.cadence.after_tick(now),
            ..self
        }
    }

    /// The plan of an iteration, once the per-tick globals are read and the
    /// clients' money reveal switch stands at `requested`: the patch is
    /// toggled where the switch changed, the bomb entity resolved again
    /// where the bomb was just dropped or planted, the holder searched where
    /// the search is flagged.
    pub open spec fn planned(&self, data: &CsData, requested: bool) -> IterationPlan {
        IterationPlan {
            toggle_patch: requested != data.money_reveal_enabled,
            rescan_bomb: self.bomb_rescan_is_due(data),
            search_holder: data.recheck_bomb_holder || self.holder_may_have_changed(data),
        }
    }

    /// Opens an iteration: takes the clients' switch over, flags the holder
    /// search where it is due, remembers the freeze period and the round
    /// count, and answers what has to be done in the target process.
    pub fn plan_iteration(&mut self, data: &mut CsData, requested: bool) -> (plan: IterationPlan)
        ensures
            plan == old(self).planned(old(data), requested),
            *final(data) == (CsData {
                money_reveal_enabled: requested,
                recheck_bomb_holder: plan.search_holder,
                ..*old(data)
            }),
            *final(self) == (PollState {
                last_freeze_period: old(data).freeze_period,
                last_round_start_count: old(data).round_start_count,
                ..*old(self)
            }),
    {
        let toggle_patch = data.sync_money_reveal(requested);
        let rescan_bomb = self.bomb_rescan_due(data);
        self.flag_holder_recheck(data);
        IterationPlan { toggle_patch, rescan_bomb, search_holder: data.recheck_bomb_holder }
    }

    /// Goes on with an iteration once the plan is carried out: records what
    /// the holder search found, where it was made, and remembers the bomb
    /// flags as they then stand.
    pub fn settle(&mut self, data: &mut CsData, searched: bool, found: Option<u64>)
        ensures
            *final(data) == (if searched {
                old(data).after_holder(found)
            } else {
                *old(data)
            }),
            *final(self) == (PollState {
                last_bomb_dropped: final(data).bomb_dropped,
                last_bomb_planted: final(data).bomb_planted,
                ..*old(self)
            }),
    {
        if searched {
            data.resolve_holder(found);
        }
        self.remember_bomb(data);
    }

    /// Closes an iteration that ended at `now`: counts it, and remembers the
    /// tick counter where a snapshot was published.
    pub fn finish_iteration(&mut self, data: &CsData, published: bool, now: u64)
        ensures
            *final(self) == old(self).after_iteration(data, published, now),
    {
        if published {
            self.last_tick_count = data.tick_count;
        }
        self.cadence.tick(now);
    }

    /// Makes the snapshot that this iteration publishes, if it publishes
    /// one, and closes the iteration, whether it publishes or not.
    pub fn close_iteration(
        &mut self,
        data: &CsData,
        now: u64,
        bomb_pos: Option<Vec3>,
        local: Option<&PlayerReading>,
        others: &Vec<PlayerReading>,
    ) -> (r: Option<RadarData>)
        ensures
            match old(self).published(data, now, bomb_pos, reading_of(local), others@) {
                Some(view) => r is Some && r->0@ == view,
                None => r is None,
            },
            r is Some ==> r->0@.consistent() && r->0@.ingame == in_game(data.map@),
            *final(self) == old(self).after_iteration(data, r is Some, now),
    {
        let snapshot = self.compose(data, now, bomb_pos, local, others);
        self.finish_iteration(data, snapshot.is_some(), now);
        snapshot
    }

    /// The frequency to publish.
    pub fn freq(&self) -> (r: u32)
        ensures
            r == self.cadence.freq,
    {
        self.cadence.freq
    }
}

} // verus!
