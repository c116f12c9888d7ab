use vstd::prelude::*;

use crate::game_data::GameData;
use crate::validation::{check_within_maximum, within_maximum, ValidationError};
use crate::slot_name::{slot_file_name, slot_file_name_spec};

verus! {

/// Platform a file was written for; it selects the file's header.
#[derive(Debug, Clone, Copy, PartialEq, Eq, Structural)]
pub enum Platform {
    Pc,
    Ps4,
}

#[derive(Debug, Clone, Copy, PartialEq, Eq, Structural)]
pub enum SaveSduSlot {
    Backpack,
    Sniper,
    Shotgun,
    Pistol,
    Grenade,
    Smg,
    AssaultRifle,
    Heavy,
}

impl SaveSduSlot {
    pub open spec fn idx(self) -> int {
        match self {
            SaveSduSlot::Backpack => 0,
            SaveSduSlot::Sniper => 1,
            SaveSduSlot::Shotgun => 2,
            SaveSduSlot::Pistol => 3,
            SaveSduSlot::Grenade => 4,
            SaveSduSlot::Smg => 5,
            SaveSduSlot::AssaultRifle => 6,
            SaveSduSlot::Heavy => 7,
        }
    }

    pub fn index(&self) -> (r: usize)
        ensures
            r as int == self.idx(),
            r < 8,
    {
        match self {
            SaveSduSlot::Backpack => 0,
            SaveSduSlot::Sniper => 1,
            SaveSduSlot::Shotgun => 2,
            SaveSduSlot::Pistol => 3,
            SaveSduSlot::Grenade => 4,
            SaveSduSlot::Smg => 5,
            SaveSduSlot::AssaultRifle => 6,
            SaveSduSlot::Heavy => 7,
        }
    }
}

#[derive(Debug, Clone, Copy, PartialEq, Eq, Structural)]
pub enum AmmoPool {
    Sniper,
    Shotgun,
    Pistol,
    Grenade,
    Smg,
    AssaultRifle,
    Heavy,
}

impl AmmoPool {
    pub open spec fn idx(self) -> int {
        match self {
            AmmoPool::Sniper => 0,
            AmmoPool::Shotgun => 1,
            AmmoPool::Pistol => 2,
            AmmoPool::Grenade => 3,
            AmmoPool::Smg => 4,
            AmmoPool::AssaultRifle => 5,
            AmmoPool::Heavy => 6,
        }
    }

    pub fn index(&self) -> (r: usize)
        ensures
            r as int == self.idx(),
            r < 7,
    {
        match self {
            AmmoPool::Sniper => 0,
            AmmoPool::Shotgun => 1,
            AmmoPool::Pistol => 2,
            AmmoPool::Grenade => 3,
            AmmoPool::Smg => 4,
            AmmoPool::AssaultRifle => 5,
            AmmoPool::Heavy => 6,
        }
    }
}

#[derive(Debug, Clone, Copy, PartialEq, Eq, Structural)]
pub enum GearSlot {
    Grenade,
    Shield,
    Weapon1,
    Weapon2,
    Weapon3,
    Weapon4,
    Artifact,
    ClassMod,
}

impl GearSlot {
    pub open spec fn idx(self) -> int {
        match self {
            GearSlot::Grenade => 0,
            GearSlot::Shield => 1,
            GearSlot::Weapon1 => 2,
            GearSlot::Weapon2 => 3,
            GearSlot::Weapon3 => 4,
            GearSlot::Weapon4 => 5,
            GearSlot::Artifact => 6,
            GearSlot::ClassMod => 7,
        }
    }

    pub fn index(&self) -> (r: usize)
        ensures
            r as int == self.idx(),
            r < 8,
    {
        match self {
            GearSlot::Grenade => 0,
            GearSlot::Shield => 1,
            GearSlot::Weapon1 => 2,
            GearSlot::Weapon2 => 3,
            GearSlot::Weapon3 => 4,
            GearSlot::Weapon4 => 5,
            GearSlot::Artifact => 6,
            GearSlot::ClassMod => 7,
        }
    }
}

#[derive(Debug, Clone, Copy, PartialEq, Eq, Structural)]
pub enum VehiclePart {
    OutrunnerChassis,
    OutrunnerParts,
    OutrunnerSkins,
    JetbeastChassis,
    JetbeastParts,
    JetbeastSkins,
    TechnicalChassis,
    TechnicalParts,
    TechnicalSkins,
    CycloneChassis,
    CycloneParts,
    CycloneSkins,
}

impl VehiclePart {
    pub open spec fn idx(self) -> int {
        match self {
            VehiclePart::OutrunnerChassis => 0,
            VehiclePart::OutrunnerParts => 1,
            VehiclePart::OutrunnerSkins => 2,
            VehiclePart::JetbeastChassis => 3,
            VehiclePart::JetbeastParts => 4,
            VehiclePart::JetbeastSkins => 5,
            VehiclePart::TechnicalChassis => 6,
            VehiclePart::TechnicalParts => 7,
            VehiclePart::TechnicalSkins => 8,
            VehiclePart::CycloneChassis => 9,
            VehiclePart::CycloneParts => 10,
            VehiclePart::CycloneSkins => 11,
        }
    }

    pub fn index(&self) -> (r: usize)
        ensures
            r as int == self.idx(),
            r < 12,
    {
        match self {
            VehiclePart::OutrunnerChassis => 0,
            VehiclePart::OutrunnerParts => 1,
            VehiclePart::OutrunnerSkins => 2,
            VehiclePart::JetbeastChassis => 3,
            VehiclePart::JetbeastParts => 4,
            VehiclePart::JetbeastSkins => 5,
            VehiclePart::TechnicalChassis => 6,
            VehiclePart::TechnicalParts => 7,
            VehiclePart::TechnicalSkins => 8,
            VehiclePart::CycloneChassis => 9,
            VehiclePart::CycloneParts => 10,
            VehiclePart::CycloneSkins => 11,
        }
    }
}

#[derive(Debug, Clone, Copy, PartialEq, Eq, Structural)]
pub enum PlayerClass {
    Beastmaster,
    Gunner,
    Operative,
    Siren,
}

#[derive(Debug, Clone, Copy, PartialEq, Eq, Structural)]
pub enum SkinSlot {
    HeadSkin,
    CharacterSkin,
    EchoTheme,
}

/// The editable fields of a save, as plain values.
#[derive(Debug, Clone)]
pub struct SaveModel {
    pub guid: String,
    pub slot: u32,
    pub character_name: String,
    pub player_class: PlayerClass,
    pub level: i32,
    pub experience_points: i32,
    pub ability_points: i32,
    pub sdu_levels: [i32; 8],
    pub ammo: [i32; 7],
    pub gear_unlocked: [bool; 8],
    pub head_skin: String,
    pub character_skin: String,
    pub echo_theme: String,
    pub money: i32,
    pub eridium: i32,
    pub vehicle_unlocked: [bool; 12],
}

impl SaveModel {
    /// Field-by-field equality, text fields compared by their characters.
    pub open spec fn same_as(&self, o: &SaveModel) -> bool {
        &&& self.guid@ == o.guid@
        &&& self.slot == o.slot
        &&& self.character_name@ == o.character_name@
        &&& self.player_class == o.player_class
        &&& self.level == o.level
        &&& self.experience_points == o.experience_points
        &&& self.ability_points == o.ability_points
        &&& self.sdu_levels == o.sdu_levels
        &&& self.ammo == o.ammo
        &&& self.gear_unlocked == o.gear_unlocked
        &&& self.head_skin@ == o.head_skin@
        &&& self.character_skin@ == o.character_skin@
        &&& self.echo_theme@ == o.echo_theme@
        &&& self.money == o.money
        &&& self.eridium == o.eridium
        &&& self.vehicle_unlocked == o.vehicle_unlocked
    }

    pub fn copy(&self) -> (r: SaveModel)
        ensures
            r.same_as(self),
    {
        SaveModel {
            guid: self.guid.clone(),
            slot: self.slot,
            character_name: self.character_name.clone(),
            player_class: self.player_class,
            level: self.level,
            experience_points: self.experience_points,
            ability_points: self.ability_points,
            sdu_levels: self.sdu_levels,
            ammo: self.ammo,
            gear_unlocked: self.gear_unlocked,
            head_skin: self.head_skin.clone(),
            character_skin: self.character_skin.clone(),
            echo_theme: self.echo_theme.clone(),
            money: self.money,
            eridium: self.eridium,
            vehicle_unlocked: self.vehicle_unlocked,
        }
    }
}

/// A save as loaded from disk: its file name, platform, raw bytes and editable fields.
#[derive(Debug, Clone)]
pub struct SaveFile {
    pub file_name: String,
    pub platform: Platform,
    /// The file's bytes as read from disk; a commit backs these up before overwriting.
    pub bytes: Vec<u8>,
    pub model: SaveModel,
}

impl SaveFile {
    pub open spec fn same_as(&self, o: &SaveFile) -> bool {
        &&& self.file_name@ == o.file_name@
        &&& self.platform == o.platform
        &&& self.bytes@ == o.bytes@
        &&& self.model.same_as(&o.model)
    }

    pub fn copy(&self) -> (r: SaveFile)
        ensures
            r.same_as(self),
    {
        SaveFile {
            file_name: self.file_name.clone(),
            platform: self.platform,
            bytes: self.bytes.clone(),
            model: self.model.copy(),
        }
    }
}

/// The pending edits of the selected save: a mirror of its editable fields.
#[derive(Debug, Clone)]
pub struct SaveViewState {
    pub file_name_input: String,
    pub save_type_selected: Platform,
    pub fields: SaveModel,
}

impl SaveViewState {
    /// The view holds exactly the values of `file`.
    pub open spec fn mirrors(&self, file: &SaveFile) -> bool {
        &&& self.file_name_input@ == file.file_name@
        &&& self.save_type_selected == file.platform
        &&& self.fields.same_as(&file.model)
    }

    /// Seeds the editable mirror from a freshly selected save.
    pub fn from_file(file: &SaveFile) -> (r: SaveViewState)
        ensures
            r.mirrors(file),
    {
        SaveViewState {
            file_name_input: file.file_name.clone(),
            save_type_selected: file.platform,
            fields: file.model.copy(),
        }
    }
}

#[derive(Debug, Clone)]
pub enum SaveGeneralInteractionMessage {
    Guid(String),
    Slot(u32),
    GenerateGuidPressed,
    SaveTypeSelected(Platform),
}

#[derive(Debug, Clone)]
pub enum SaveCharacterInteractionMessage {
    Name(String),
    Level(i32),
    ExperiencePoints(i32),
    AbilityPoints(i32),
    SduMessage(SaveSduSlot, i32),
    MaxSduSlotsPressed,
    AmmoMessage(AmmoPool, i32),
    MaxAmmoAmountsPressed,
    PlayerClassSelected(PlayerClass),
    SkinMessage(SkinSlot, String),
    GearMessage(GearSlot, bool),
}

#[derive(Debug, Clone)]
pub enum SaveCurrencyInteractionMessage {
    Money(i32),
    Eridium(i32),
    MaxMoneyPressed,
    MaxEridiumPressed,
}

#[derive(Debug, Clone)]
pub enum SaveVehicleInteractionMessage {
    UnlockMessage(VehiclePart, bool),
}

pub open spec fn general_edit(old: SaveViewState, msg: SaveGeneralInteractionMessage, new: SaveViewState) -> bool {
    match msg {
        SaveGeneralInteractionMessage::Guid(g) => new == (SaveViewState {
            fields: SaveModel { guid: g, ..old.fields },
            ..old
        }),
        SaveGeneralInteractionMessage::Slot(slot) => {
            &&& new.file_name_input@ == slot_file_name_spec(slot)
            &&& new == (SaveViewState {
                file_name_input: new.file_name_input,
                fields: SaveModel { slot: slot, ..old.fields },
                ..old
            })
        },
        SaveGeneralInteractionMessage::GenerateGuidPressed => new == old,
        SaveGeneralInteractionMessage::SaveTypeSelected(p) => new == (
        SaveViewState { save_type_selected: p, ..old }),
    }
}

pub open spec fn character_edit(old: SaveViewState, msg: SaveCharacterInteractionMessage, data: GameData, new: SaveViewState) -> bool {
    match msg {
        SaveCharacterInteractionMessage::Name(n) => new == (SaveViewState {
            fields: SaveModel { character_name: n, ..old.fields },
            ..old
        }),
        SaveCharacterInteractionMessage::Level(level) => new == (SaveViewState {
            fields: SaveModel {
                level: level,
                experience_points: if 1 <= level <= data.max_level() {
                    data.xp_for_level(level as int) as i32
                } else if level <= 0 {
                    0
                } else {
                    old.fields.experience_points
                },
                ..old.fields
            },
            ..old
        }),
        SaveCharacterInteractionMessage::ExperiencePoints(xp) => new == (
        SaveViewState {
            fields: SaveModel {
                experience_points: xp,
                level: data.level_for_xp(xp as int) as i32,
                ..old.fields
            },
            ..old
        }),
        SaveCharacterInteractionMessage::AbilityPoints(p) => new == (
        SaveViewState { fields: SaveModel { ability_points: p, ..old.fields }, ..old }),
        SaveCharacterInteractionMessage::SduMessage(slot, level) => {
            &&& new.fields.sdu_levels@ == old.fields.sdu_levels@.update(
                slot.idx(),
                level,
            )
            &&& new == (SaveViewState {
                fields: SaveModel {
                    sdu_levels: new.fields.sdu_levels,
                    ..old.fields
                },
                ..old
            })
        },
        SaveCharacterInteractionMessage::MaxSduSlotsPressed => new == (
        SaveViewState {
            fields: SaveModel { sdu_levels: data.save_sdu_maximum, ..old.fields },
            ..old
        }),
        SaveCharacterInteractionMessage::AmmoMessage(pool, amount) => {
            &&& new.fields.ammo@ == old.fields.ammo@.update(pool.idx(), amount)
            &&& new == (SaveViewState {
                fields: SaveModel { ammo: new.fields.ammo, ..old.fields },
                ..old
            })
        },
        SaveCharacterInteractionMessage::MaxAmmoAmountsPressed => new == (
        SaveViewState {
            fields: SaveModel { ammo: data.ammo_maximum, ..old.fields },
            ..old
        }),
        SaveCharacterInteractionMessage::PlayerClassSelected(c) => new == (
        SaveViewState { fields: SaveModel { player_class: c, ..old.fields }, ..old }),
        SaveCharacterInteractionMessage::SkinMessage(slot, skin) => new == (
        SaveViewState {
            fields: match slot {
                SkinSlot::HeadSkin => SaveModel { head_skin: skin, ..old.fields },
                SkinSlot::CharacterSkin => SaveModel {
                    character_skin: skin,
                    ..old.fields
                },
                SkinSlot::EchoTheme => SaveModel { echo_theme: skin, ..old.fields },
            },
            ..old
        }),
        SaveCharacterInteractionMessage::GearMessage(gear, unlocked) => {
            &&& new.fields.gear_unlocked@ == old.fields.gear_unlocked@.update(gear.idx(), unlocked)
            &&& new == (SaveViewState {
                fields: SaveModel {
                    gear_unlocked: new.fields.gear_unlocked,
                    ..old.fields
                },
                ..old
            })
        },
    }
}

pub open spec fn currency_edit(old: SaveViewState, msg: SaveCurrencyInteractionMessage, new: SaveViewState) -> bool {
    new == (SaveViewState {
        fields: match msg {
            SaveCurrencyInteractionMessage::Money(m) => SaveModel {
                money: m,
                ..old.fields
            },
            SaveCurrencyInteractionMessage::Eridium(e) => SaveModel {
                eridium: e,
                ..old.fields
            },
            SaveCurrencyInteractionMessage::MaxMoneyPressed => SaveModel {
                money: i32::MAX,
                ..old.fields
            },
            SaveCurrencyInteractionMessage::MaxEridiumPressed => SaveModel {
                eridium: i32::MAX,
                ..old.fields
            },
        },
        ..old
    })
}

pub open spec fn vehicle_edit(old: SaveViewState, msg: SaveVehicleInteractionMessage, new: SaveViewState) -> bool {
    match msg {
        SaveVehicleInteractionMessage::UnlockMessage(part, unlocked) => {
            &&& new.fields.vehicle_unlocked@ == old.fields.vehicle_unlocked@.update(part.idx(), unlocked)
            &&& new == (SaveViewState {
                fields: SaveModel {
                    vehicle_unlocked: new.fields.vehicle_unlocked,
                    ..old.fields
                },
                ..old
            })
        },
    }
}

impl SaveViewState {
    /// Applies an edit of the general tab. Choosing a slot also renames the file that
    /// the commit will write. Generating a GUID is performed outside and re-enters as
    /// `Guid`, so it changes nothing here.
    pub fn apply_general(&mut self, msg: SaveGeneralInteractionMessage)
        ensures
            general_edit(*old(self), msg, *final(self)),
    {
        match msg {
            SaveGeneralInteractionMessage::Guid(g) => {
                self.fields.guid = g;
            },
            SaveGeneralInteractionMessage::Slot(slot) => {
                self.file_name_input = slot_file_name(slot);
                self.fields.slot = slot;
            },
            SaveGeneralInteractionMessage::GenerateGuidPressed => {},
            SaveGeneralInteractionMessage::SaveTypeSelected(p) => {
                self.save_type_selected = p;
            },
        }
    }

    /// Applies an edit of the character tab. Setting the level also sets the experience
    /// that level needs (zero below level one, unchanged above the maximum level);
    /// setting the experience also sets the level it reaches.
    pub fn apply_character(&mut self, msg: SaveCharacterInteractionMessage, data: &GameData)
        requires
            data.wf(),
        ensures
            character_edit(*old(self), msg, *data, *final(self)),
    {
        match msg {
            SaveCharacterInteractionMessage::Name(n) => {
                self.fields.character_name = n;
            },
            SaveCharacterInteractionMessage::Level(level) => {
                match data.experience_for_level(level) {
                    Some(xp) => {
                        self.fields.experience_points = xp;
                    },
                    None => {
                        if level <= 0 {
                            self.fields.experience_points = 0;
                        }
                    },
                }
                self.fields.level = level;
            },
            SaveCharacterInteractionMessage::ExperiencePoints(xp) => {
                self.fields.level = data.experience_to_level(xp);
                self.fields.experience_points = xp;
            },
            SaveCharacterInteractionMessage::AbilityPoints(p) => {
                self.fields.ability_points = p;
            },
            SaveCharacterInteractionMessage::SduMessage(slot, level) => {
                self.fields.sdu_levels[slot.index()] = level;
            },
            SaveCharacterInteractionMessage::MaxSduSlotsPressed => {
                self.fields.sdu_levels = data.save_sdu_maximum;
            },
            SaveCharacterInteractionMessage::AmmoMessage(pool, amount) => {
                self.fields.ammo[pool.index()] = amount;
            },
            SaveCharacterInteractionMessage::MaxAmmoAmountsPressed => {
                self.fields.ammo = data.ammo_maximum;
            },
            SaveCharacterInteractionMessage::PlayerClassSelected(c) => {
                self.fields.player_class = c;
            },
            SaveCharacterInteractionMessage::SkinMessage(slot, skin) => match slot {
                SkinSlot::HeadSkin => {
                    self.fields.head_skin = skin;
                },
                SkinSlot::CharacterSkin => {
                    self.fields.character_skin = skin;
                },
                SkinSlot::EchoTheme => {
                    self.fields.echo_theme = skin;
                },
            },
            SaveCharacterInteractionMessage::GearMessage(gear, unlocked) => {
                self.fields.gear_unlocked[gear.index()] = unlocked;
            },
        }
    }

    /// Applies an edit of the currency tab; the maximum buttons set `i32::MAX`.
    pub fn apply_currency(&mut self, msg: SaveCurrencyInteractionMessage)
        ensures
            currency_edit(*old(self), msg, *final(self)),
    {
        match msg {
            SaveCurrencyInteractionMessage::Money(m) => {
                self.fields.money = m;
            },
            SaveCurrencyInteractionMessage::Eridium(e) => {
                self.fields.eridium = e;
            },
            SaveCurrencyInteractionMessage::MaxMoneyPressed => {
                self.fields.money = i32::MAX;
            },
            SaveCurrencyInteractionMessage::MaxEridiumPressed => {
                self.fields.eridium = i32::MAX;
            },
        }
    }

    /// Applies an edit of the vehicle tab.
    pub fn apply_vehicle(&mut self, msg: SaveVehicleInteractionMessage)
        ensures
            vehicle_edit(*old(self), msg, *final(self)),
    {
        match msg {
            SaveVehicleInteractionMessage::UnlockMessage(part, unlocked) => {
                self.fields.vehicle_unlocked[part.index()] = unlocked;
            },
        }
    }
}

/// The first rule that the pending save fields break, in a fixed order, or `None` when
/// they may be written.
pub open spec fn save_violation(f: SaveModel, data: GameData) -> Option<ValidationError> {
    if !(1 <= f.level <= data.max_level()) {
        Some(ValidationError::LevelOutOfRange)
    } else if !(0 <= f.experience_points <= data.required_xp@.last()) {
        Some(ValidationError::ExperienceOutOfRange)
    } else if f.ability_points < 0 {
        Some(ValidationError::AbilityPointsOutOfRange)
    } else if !within_maximum(f.sdu_levels@, data.save_sdu_maximum@) {
        Some(ValidationError::SduOutOfRange)
    } else if !within_maximum(f.ammo@, data.ammo_maximum@) {
        Some(ValidationError::AmmoOutOfRange)
    } else if f.money < 0 {
        Some(ValidationError::MoneyOutOfRange)
    } else if f.eridium < 0 {
        Some(ValidationError::EridiumOutOfRange)
    } else {
        None
    }
}

impl SaveFile {
    /// This file is `base` with every pending edit of `view` applied.
    pub open spec fn mapped_from(&self, view: &SaveViewState, base: &SaveFile) -> bool {
        &&& self.file_name@ == view.file_name_input@
        &&& self.platform == view.save_type_selected
        &&& self.bytes@ == base.bytes@
        &&& self.model.same_as(&view.fields)
    }
}

/// Applies the pending edits to a copy of `current`, leaving `current` itself untouched.
/// Fails with the first rule that the edits break.
pub fn map_all_states_to_save(view: &SaveViewState, current: &SaveFile, data: &GameData) -> (r:
    Result<SaveFile, ValidationError>)
    requires
        data.wf(),
    ensures
        match save_violation(view.fields, *data) {
            Some(e) => r == Err::<SaveFile, ValidationError>(e),
            None => r is Ok && r->Ok_0.mapped_from(view, current),
        },
{
    let f = &view.fields;
    let last = data.required_xp.len() - 1;
    if f.level < 1 || f.level as usize > data.required_xp.len() {
        return Err(ValidationError::LevelOutOfRange);
    }
    if f.experience_points < 0 || f.experience_points > data.required_xp[last] {
        return Err(ValidationError::ExperienceOutOfRange);
    }
    if f.ability_points < 0 {
        return Err(ValidationError::AbilityPointsOutOfRange);
    }
    if !check_within_maximum(&f.sdu_levels, &data.save_sdu_maximum) {
        return Err(ValidationError::SduOutOfRange);
    }
    if !check_within_maximum(&f.ammo, &data.ammo_maximum) {
        return Err(ValidationError::AmmoOutOfRange);
    }
    if f.money < 0 {
        return Err(ValidationError::MoneyOutOfRange);
    }
    if f.eridium < 0 {
        return Err(ValidationError::EridiumOutOfRange);
    }
    let mut edited = current.copy();
    edited.file_name = view.file_name_input.clone();
    edited.platform = view.save_type_selected;
    edited.model = f.copy();
    Ok(edited)
}

} // verus!
