//! The snapshot that is published to clients, and the records it is made of.
//!
//! Durations are whole milliseconds. Positions and angles are
//! single-precision bit patterns, see [`Vec3`].

use vstd::prelude::*;
use crate::structs::Vec3;
use crate::enums::PlayerType;

verus! {

/// What a [`PlayerData`] stands for.
pub struct PlayerView {
    pub pos: Vec3,
    pub yaw: u32,
    pub player_type: PlayerType,
    pub has_bomb: bool,
    pub has_awp: bool,
    pub is_scoped: bool,
    pub player_name: Seq<char>,
    pub weapon_id: i16,
    pub money: i32,
    pub health: u32,
}

/// One living player as shown on the radar.
#[derive(Debug, Clone)]
pub struct PlayerData {
    pos: Vec3,
    yaw: u32,
    player_type: PlayerType,
    has_bomb: bool,
    has_awp: bool,
    is_scoped: bool,
    player_name: String,
    weapon_id: i16,
    money: i32,
    health: u32,
}

impl View for PlayerData {
    type V = PlayerView;

    closed spec fn view(&self) -> PlayerView {
        PlayerView {
            pos: self.pos,
            yaw: self.yaw,
            player_type: self.player_type,
            has_bomb: self.has_bomb,
            has_awp: self.has_awp,
            is_scoped: self.is_scoped,
            player_name: self.player_name@,
            weapon_id: self.weapon_id,
            money: self.money,
            health: self.health,
        }
    }
}

impl PlayerData {
    /// A player record with exactly the given fields. `yaw` is the bit
    /// pattern of a single-precision angle.
    pub fn new(
        pos: Vec3,
        yaw: u32,
        player_type: PlayerType,
        has_bomb: bool,
        has_awp: bool,
        is_scoped: bool,
        player_name: String,
        weapon_id: i16,
        money: i32,
        health: u32,
    ) -> (r: PlayerData)
        ensures
            r@ == (PlayerView {
                pos,
                yaw,
                player_type,
                has_bomb,
                has_awp,
                is_scoped,
                player_name: player_name@,
                weapon_id,
                money,
                health,
            }),
    {
        PlayerData {
            pos,
            yaw,
            player_type,
            has_bomb,
            has_awp,
            is_scoped,
            player_name,
            weapon_id,
            money,
            health,
        }
    }

    pub fn pos(&self) -> (r: Vec3)
        ensures
            r == self@.pos,
    {
        self.pos
    }

    pub fn yaw(&self) -> (r: u32)
        ensures
            r == self@.yaw,
    {
        self.yaw
    }

    pub fn player_type(&self) -> (r: PlayerType)
        ensures
            r == self@.player_type,
    {
        self.player_type
    }

    pub fn has_bomb(&self) -> (r: bool)
        ensures
            r == self@.has_bomb,
    {
        self.has_bomb
    }

    pub fn has_awp(&self) -> (r: bool)
        ensures
            r == self@.has_awp,
    {
        self.has_awp
    }

    pub fn is_scoped(&self) -> (r: bool)
        ensures
            r == self@.is_scoped,
    {
        self.is_scoped
    }

    pub fn player_name(&self) -> (r: &str)
        ensures
            r@ == self@.player_name,
    {
        self.player_name.as_str()
    }

    pub fn weapon_id(&self) -> (r: i16)
        ensures
            r == self@.weapon_id,
    {
        self.weapon_id
    }

    pub fn money(&self) -> (r: i32)
        ensures
            r == self@.money,
    {
        self.money
    }

    pub fn health(&self) -> (r: u32)
        ensures
            r == self@.health,
    {
        self.health
    }
}

/// What a [`BombData`] stands for.
pub struct BombView {
    pub pos: Vec3,
    pub is_planted: bool,
}

/// The bomb while it lies on the ground or is planted.
#[derive(Debug, Clone)]
pub struct BombData {
    pos: Vec3,
    is_planted: bool,
}

impl View for BombData {
    type V = BombView;

    closed spec fn view(&self) -> BombView {
        BombView { pos: self.pos, is_planted: self.is_planted }
    }
}

impl BombData {
    pub fn new(pos: Vec3, is_planted: bool) -> (r: BombData)
        ensures
            r@ == (BombView { pos, is_planted }),
    {
        BombData { pos, is_planted }
    }

    pub fn pos(&self) -> (r: Vec3)
        ensures
            r == self@.pos,
    {
        self.pos
    }

    pub fn is_planted(&self) -> (r: bool)
        ensures
            r == self@.is_planted,
    {
        self.is_planted
    }
}

/// What an [`EntityData`] stands for.
pub enum EntityView {
    Player(PlayerView),
    Bomb(BombView),
}

/// One thing drawn on the radar.
#[derive(Debug, Clone)]
pub enum EntityData {
    Player(PlayerData),
    Bomb(BombData),
}

impl View for EntityData {
    type V = EntityView;

    open spec fn view(&self) -> EntityView {
        match self {
            EntityData::Player(p) => EntityView::Player(p@),
            EntityData::Bomb(b) => EntityView::Bomb(b@),
        }
    }
}

/// The views of a run of entities, in order.
pub open spec fn entity_views(entities: Seq<EntityData>) -> Seq<EntityView> {
    entities.map_values(|e: EntityData| e@)
}

/// Display switches sent along with every snapshot.
#[derive(Debug, Clone, Copy, PartialEq, Eq, Structural)]
pub struct CheatOptions {
    pub reveal_money: bool,
    pub display_money: bool,
}

impl Default for CheatOptions {
    /// Money is displayed and not revealed.
    fn default() -> (r: CheatOptions)
        ensures
            r == (CheatOptions { reveal_money: false, display_money: true }),
    {
        CheatOptions { reveal_money: false, display_money: true }
    }
}

/// What a [`RadarData`] stands for.
pub struct RadarView {
    pub freq: u32,
    pub ingame: bool,
    pub bomb_planted: bool,
    pub bomb_exploded: bool,
    pub bomb_being_defused: bool,
    pub bomb_can_defuse: bool,
    pub bomb_defuse_length: u64,
    pub bomb_defuse_timeleft: u64,
    pub bomb_defuse_end: u64,
    pub map_name: Seq<char>,
    pub entities: Seq<EntityView>,
    pub options: CheatOptions,
    pub money_reveal_enabled: bool,
}

impl RadarView {
    /// The snapshot of a moment outside any match: nothing on the map, every
    /// bomb field at rest.
    pub open spec fn empty(freq: u32) -> RadarView {
        RadarView {
            freq,
            ingame: false,
            bomb_planted: false,
            bomb_exploded: false,
            bomb_being_defused: false,
            bomb_can_defuse: false,
            bomb_defuse_length: 0,
            bomb_defuse_timeleft: 0,
            bomb_defuse_end: 0,
            map_name: Seq::empty(),
            entities: Seq::empty(),
            options: CheatOptions { reveal_money: false, display_money: true },
            money_reveal_enabled: false,
        }
    }

    /// Picks the bomb entities.
    pub open spec fn is_bomb() -> spec_fn(EntityView) -> bool {
        |e: EntityView| e is Bomb
    }

    /// Picks the players marked as carrying the bomb.
    pub open spec fn is_carrier() -> spec_fn(EntityView) -> bool {
        |e: EntityView| e matches EntityView::Player(p) && p.has_bomb
    }

    /// Number of bomb entities.
    pub open spec fn bomb_count(self) -> nat {
        self.entities.filter(Self::is_bomb()).len()
    }

    /// Number of players marked as carrying the bomb.
    pub open spec fn carrier_count(self) -> nat {
        self.entities.filter(Self::is_carrier()).len()
    }

    /// Nothing on the map and every bomb field at rest.
    pub open spec fn at_rest(self) -> bool {
        &&& self.entities.len() == 0
        &&& self.map_name.len() == 0
        &&& !self.bomb_planted
        &&& !self.bomb_exploded
        &&& !self.bomb_being_defused
        &&& !self.bomb_can_defuse
        &&& self.bomb_defuse_length == 0
        &&& self.bomb_defuse_timeleft == 0
        &&& self.bomb_defuse_end == 0
    }

    /// What holds of every snapshot the producer makes: outside a match it
    /// is at rest; it shows at most one bomb; time is left on the bomb only
    /// while it is planted and has not gone off, and never more than the
    /// defuse's end leaves; a defuse that cannot make it has its end at zero.
    pub open spec fn consistent(self) -> bool {
        &&& !self.ingame ==> self.at_rest()
        &&& self.bomb_count() <= 1
        &&& (!self.bomb_planted || self.bomb_exploded) ==> self.bomb_defuse_timeleft == 0
        &&& !self.bomb_can_defuse ==> self.bomb_defuse_end == 0
        &&& self.bomb_defuse_end <= self.bomb_defuse_timeleft
    }
}

/// One published moment of a match.
///
/// `money_reveal_enabled` is the one field that clients steer; it is kept in
/// memory only and is no part of what is sent.
#[derive(Debug, Clone)]
pub struct RadarData {
    freq: u32,
    ingame: bool,
    bomb_planted: bool,
    bomb_exploded: bool,
    bomb_being_defused: bool,
    bomb_can_defuse: bool,
    bomb_defuse_length: u64,
    bomb_defuse_timeleft: u64,
    bomb_defuse_end: u64,
    map_name: String,
    player_data: Vec<EntityData>,
    options: CheatOptions,
    pub money_reveal_enabled: bool,
}

impl View for RadarData {
    type V = RadarView;

    closed spec fn view(&self) -> RadarView {
        RadarView {
            freq: self.freq,
            ingame: self.ingame,
            bomb_planted: self.bomb_planted,
            bomb_exploded: self.bomb_exploded,
            bomb_being_defused: self.bomb_being_defused,
            bomb_can_defuse: self.bomb_can_defuse,
            bomb_defuse_length: self.bomb_defuse_length,
            bomb_defuse_timeleft: self.bomb_defuse_timeleft,
            bomb_defuse_end: self.bomb_defuse_end,
            map_name: self.map_name@,
            entities: entity_views(self.player_data@),
            options: self.options,
            money_reveal_enabled: self.money_reveal_enabled,
        }
    }
}

impl RadarData {
    /// A snapshot with exactly the given fields, default options and the
    /// money reveal switched off.
    pub fn new(
        ingame: bool,
        map_name: String,
        player_data: Vec<EntityData>,
        freq: u32,
        bomb_planted: bool,
        bomb_can_defuse: bool,
        bomb_defuse_timeleft: u64,
        bomb_exploded: bool,
        bomb_being_defused: bool,
        bomb_defuse_length: u64,
        bomb_defuse_end: u64,
    ) -> (r: RadarData)
        ensures
            r@ == (RadarView {
                freq,
                ingame,
                bomb_planted,
                bomb_exploded,
                bomb_being_defused,
                bomb_can_defuse,
                bomb_defuse_length,
                bomb_defuse_timeleft,
                bomb_defuse_end,
                map_name: map_name@,
                entities: entity_views(player_data@),
                options: CheatOptions { reveal_money: false, display_money: true },
                money_reveal_enabled: false,
            }),
    {
        RadarData {
            ingame,
            map_name,
            player_data,
            freq,
            bomb_planted,
            bomb_can_defuse,
            bomb_defuse_timeleft,
            bomb_exploded,
            bomb_being_defused,
            bomb_defuse_length,
            bomb_defuse_end,
            options: CheatOptions::default(),
            money_reveal_enabled: false,
        }
    }

    /// The snapshot that is published while no match is running.
    pub fn empty(freq: u32) -> (r: RadarData)
        ensures
            r@ == RadarView::empty(freq),
    {
        let r = RadarData {
            ingame: false,
            map_name: String::new(),
            player_data: Vec::new(),
            freq,
            bomb_planted: false,
            bomb_can_defuse: false,
            bomb_defuse_timeleft: 0,
            bomb_exploded: false,
            bomb_being_defused: false,
            bomb_defuse_length: 0,
            bomb_defuse_end: 0,
            options: CheatOptions::default(),
            money_reveal_enabled: false,
        };
        assert(r@.entities =~= Seq::empty());
        r
    }

    pub fn get_entities(&self) -> (r: &Vec<EntityData>)
        ensures
            entity_views(r@) == self@.entities,
    {
        &self.player_data
    }

    pub fn freq(&self) -> (r: u32)
        ensures
            r == self@.freq,
    {
        self.freq
    }

    pub fn ingame(&self) -> (r: bool)
        ensures
            r == self@.ingame,
    {
        self.ingame
    }

    pub fn map_name(&self) -> (r: &str)
        ensures
            r@ == self@.map_name,
    {
        self.map_name.as_str()
    }

    pub fn bomb_planted(&self) -> (r: bool)
        ensures
            r == self@.bomb_planted,
    {
        self.bomb_planted
    }

    pub fn bomb_exploded(&self) -> (r: bool)
        ensures
            r == self@.bomb_exploded,
    {
        self.bomb_exploded
    }

    pub fn bomb_being_defused(&self) -> (r: bool)
        ensures
            r == self@.bomb_being_defused,
    {
        self.bomb_being_defused
    }

    pub fn bomb_can_defuse(&self) -> (r: bool)
        ensures
            r == self@.bomb_can_defuse,
    {
        self.bomb_can_defuse
    }

    pub fn bomb_defuse_length(&self) -> (r: u64)
        ensures
            r == self@.bomb_defuse_length,
    {
        self.bomb_defuse_length
    }

    pub fn bomb_defuse_timeleft(&self) -> (r: u64)
        ensures
            r == self@.bomb_defuse_timeleft,
    {
        self.bomb_defuse_timeleft
    }

    pub fn bomb_defuse_end(&self) -> (r: u64)
        ensures
            r == self@.bomb_defuse_end,
    {
        self.bomb_defuse_end
    }

    pub fn options(&self) -> (r: CheatOptions)
        ensures
            r == self@.options,
    {
        self.options
    }

    pub fn money_reveal(&self) -> (r: bool)
        ensures
            r == self@.money_reveal_enabled,
    {
        self.money_reveal_enabled
    }

    /// Sets the money reveal switch and nothing else.
    pub fn set_money_reveal(&mut self, enabled: bool)
        ensures
            final(self)@ == (RadarView { money_reveal_enabled: enabled, ..old(self)@ }),
    {
        self.money_reveal_enabled = enabled;
    }

    /// Flips the money reveal switch, as a client asks for it, and answers
    /// its new position. Nothing else changes.
    pub fn toggle_money_reveal(&mut self) -> (enabled: bool)
        ensures
            enabled == !old(self)@.money_reveal_enabled,
            final(self)@ == (RadarView { money_reveal_enabled: enabled, ..old(self)@ }),
    {
        self.money_reveal_enabled = !self.money_reveal_enabled;
        self.money_reveal_enabled
    }

    /// Replaces the published snapshot by a new one. The money reveal switch
    /// belongs to the clients and stays as it was.
    pub fn publish(&mut self, snapshot: RadarData)
        ensures
            final(self)@ == (RadarView {
                money_reveal_enabled: old(self)@.money_reveal_enabled,
                ..snapshot@
            }),
    {
        let keep = self.money_reveal_enabled;
        *self = snapshot;
        self.money_reveal_enabled = keep;
    }
}

} // verus!
