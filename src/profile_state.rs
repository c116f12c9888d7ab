use vstd::prelude::*;

use crate::game_data::GameData;
use crate::save_state::Platform;
use crate::validation::{
    all_non_negative, check_non_negative, check_within_maximum, same_values, within_maximum,
    ValidationError,
};

verus! {

#[derive(Debug, Clone, Copy, PartialEq, Eq, Structural)]
pub enum ProfileSduSlot {
    Bank,
    LostLoot,
}

impl ProfileSduSlot {
    pub open spec fn idx(self) -> int {
        match self {
            ProfileSduSlot::Bank => 0,
            ProfileSduSlot::LostLoot => 1,
        }
    }

    pub fn index(&self) -> (r: usize)
        ensures
            r as int == self.idx(),
            r < 2,
    {
        match self {
            ProfileSduSlot::Bank => 0,
            ProfileSduSlot::LostLoot => 1,
        }
    }
}

#[derive(Debug, Clone, Copy, PartialEq, Eq, Structural)]
pub enum SkinUnlock {
    CharacterSkins,
    CharacterHeads,
    EchoThemes,
    Emotes,
    RoomDecorations,
    WeaponSkins,
    WeaponTrinkets,
}

impl SkinUnlock {
    pub open spec fn idx(self) -> int {
        match self {
            SkinUnlock::CharacterSkins => 0,
            SkinUnlock::CharacterHeads => 1,
            SkinUnlock::EchoThemes => 2,
            SkinUnlock::Emotes => 3,
            SkinUnlock::RoomDecorations => 4,
            SkinUnlock::WeaponSkins => 5,
            SkinUnlock::WeaponTrinkets => 6,
        }
    }

    pub fn index(&self) -> (r: usize)
        ensures
            r as int == self.idx(),
            r < 7,
    {
        match self {
            SkinUnlock::CharacterSkins => 0,
            SkinUnlock::CharacterHeads => 1,
            SkinUnlock::EchoThemes => 2,
            SkinUnlock::Emotes => 3,
            SkinUnlock::RoomDecorations => 4,
            SkinUnlock::WeaponSkins => 5,
            SkinUnlock::WeaponTrinkets => 6,
        }
    }
}

#[derive(Debug, Clone, Copy, PartialEq, Eq, Structural)]
pub enum GuardianReward {
    Accuracy,
    ActionSkillCooldown,
    CriticalDamage,
    ElementalDamage,
    FFYLDuration,
    FFYLMovementSpeed,
    GrenadeDamage,
    GunDamage,
    GunFireRate,
    MaxHealth,
    MeleeDamage,
    RarityRate,
    RecoilReduction,
    ReloadSpeed,
    ShieldCapacity,
    ShieldRechargeDelay,
    ShieldRechargeRate,
    VehicleDamage,
}

impl GuardianReward {
    pub open spec fn idx(self) -> int {
        match self {
            GuardianReward::Accuracy => 0,
            GuardianReward::ActionSkillCooldown => 1,
            GuardianReward::CriticalDamage => 2,
            GuardianReward::ElementalDamage => 3,
            GuardianReward::FFYLDuration => 4,
            GuardianReward::FFYLMovementSpeed => 5,
            GuardianReward::GrenadeDamage => 6,
            GuardianReward::GunDamage => 7,
            GuardianReward::GunFireRate => 8,
            GuardianReward::MaxHealth => 9,
            GuardianReward::MeleeDamage => 10,
            GuardianReward::RarityRate => 11,
            GuardianReward::RecoilReduction => 12,
            GuardianReward::ReloadSpeed => 13,
            GuardianReward::ShieldCapacity => 14,
            GuardianReward::ShieldRechargeDelay => 15,
            GuardianReward::ShieldRechargeRate => 16,
            GuardianReward::VehicleDamage => 17,
        }
    }

    pub fn index(&self) -> (r: usize)
        ensures
            r as int == self.idx(),
            r < 18,
    {
        match self {
            GuardianReward::Accuracy => 0,
            GuardianReward::ActionSkillCooldown => 1,
            GuardianReward::CriticalDamage => 2,
            GuardianReward::ElementalDamage => 3,
            GuardianReward::FFYLDuration => 4,
            GuardianReward::FFYLMovementSpeed => 5,
            GuardianReward::GrenadeDamage => 6,
            GuardianReward::GunDamage => 7,
            GuardianReward::GunFireRate => 8,
            GuardianReward::MaxHealth => 9,
            GuardianReward::MeleeDamage => 10,
            GuardianReward::RarityRate => 11,
            GuardianReward::RecoilReduction => 12,
            GuardianReward::ReloadSpeed => 13,
            GuardianReward::ShieldCapacity => 14,
            GuardianReward::ShieldRechargeDelay => 15,
            GuardianReward::ShieldRechargeRate => 16,
            GuardianReward::VehicleDamage => 17,
        }
    }
}

#[derive(Debug, Clone, Copy, PartialEq, Eq, Structural)]
pub enum KeyKind {
    GoldenKeys,
    DiamondKeys,
    VaultCard1Keys,
    VaultCard1Chests,
    VaultCard2Keys,
    VaultCard2Chests,
    VaultCard3Keys,
    VaultCard3Chests,
}

impl KeyKind {
    pub open spec fn idx(self) -> int {
        match self {
            KeyKind::GoldenKeys => 0,
            KeyKind::DiamondKeys => 1,
            KeyKind::VaultCard1Keys => 2,
            KeyKind::VaultCard1Chests => 3,
            KeyKind::VaultCard2Keys => 4,
            KeyKind::VaultCard2Chests => 5,
            KeyKind::VaultCard3Keys => 6,
            KeyKind::VaultCard3Chests => 7,
        }
    }

    pub fn index(&self) -> (r: usize)
        ensures
            r as int == self.idx(),
            r < 8,
    {
        match self {
            KeyKind::GoldenKeys => 0,
            KeyKind::DiamondKeys => 1,
            KeyKind::VaultCard1Keys => 2,
            KeyKind::VaultCard1Chests => 3,
            KeyKind::VaultCard2Keys => 4,
            KeyKind::VaultCard2Chests => 5,
            KeyKind::VaultCard3Keys => 6,
            KeyKind::VaultCard3Chests => 7,
        }
    }
}

/// The editable fields of a profile, as plain values.
#[derive(Debug, Clone, Copy)]
pub struct ProfileModel {
    pub guardian_rank_tokens: i32,
    pub science_level: i32,
    pub science_tokens: i32,
    pub skins_unlocked: [bool; 7],
    pub sdu_levels: [i32; 2],
    pub guardian_rewards: [i32; 18],
    pub keys: [i32; 8],
}

/// A profile as loaded from disk: its file name, platform, raw bytes and editable fields.
#[derive(Debug, Clone)]
pub struct ProfileFile {
    pub file_name: String,
    pub platform: Platform,
    /// The file's bytes as read from disk; a commit backs these up before overwriting.
    pub bytes: Vec<u8>,
    pub model: ProfileModel,
}

impl ProfileFile {
    pub open spec fn same_as(&self, o: &ProfileFile) -> bool {
        &&& self.file_name@ == o.file_name@
        &&& self.platform == o.platform
        &&& self.bytes@ == o.bytes@
        &&& self.model == o.model
    }

    pub fn copy(&self) -> (r: ProfileFile)
        ensures
            r.same_as(self),
    {
        ProfileFile {
            file_name: self.file_name.clone(),
            platform: self.platform,
            bytes: self.bytes.clone(),
            model: self.model,
        }
    }
}

/// The pending edits of the selected profile: a mirror of its editable fields.
#[derive(Debug, Clone, Copy)]
pub struct ProfileViewState {
    pub profile_type_selected: Platform,
    pub fields: ProfileModel,
}

impl ProfileViewState {
    /// The view holds exactly the values of `file`.
    pub open spec fn mirrors(&self, file: &ProfileFile) -> bool {
        &&& self.profile_type_selected == file.platform
        &&& self.fields == file.model
    }

    /// Seeds the editable mirror from a freshly selected profile.
    pub fn from_file(file: &ProfileFile) -> (r: ProfileViewState)
        ensures
            r.mirrors(file),
    {
        ProfileViewState { profile_type_selected: file.platform, fields: file.model }
    }
}

#[derive(Debug, Clone)]
pub enum ProfileGeneralInteractionMessage {
    ProfileTypeSelected(Platform),
}

#[derive(Debug, Clone)]
pub enum ProfileInteractionMessage {
    GuardianRankTokens(i32),
    ScienceLevelSelected(i32),
    ScienceTokens(i32),
    SkinMessage(SkinUnlock, bool),
    SduMessage(ProfileSduSlot, i32),
    MaxSduSlotsPressed,
    GuardianRewardMessage(GuardianReward, i32),
    MaxGuardianRewardsPressed,
}

#[derive(Debug, Clone)]
pub enum ProfileKeysInteractionMessage {
    Keys(KeyKind, i32),
    MaxKeysPressed(KeyKind),
}

pub open spec fn profile_general_edit(old: ProfileViewState, msg: ProfileGeneralInteractionMessage, new: ProfileViewState) -> bool {
    match msg {
        ProfileGeneralInteractionMessage::ProfileTypeSelected(p) => new == (
        ProfileViewState { profile_type_selected: p, ..old }),
    }
}

pub open spec fn profile_edit(old: ProfileViewState, msg: ProfileInteractionMessage, data: GameData, new: ProfileViewState) -> bool {
    &&& new.profile_type_selected == old.profile_type_selected
    &&& match msg {
        ProfileInteractionMessage::GuardianRankTokens(t) => new.fields == (
        ProfileModel { guardian_rank_tokens: t, ..old.fields }),
        ProfileInteractionMessage::ScienceLevelSelected(l) => new.fields == (
        ProfileModel { science_level: l, ..old.fields }),
        ProfileInteractionMessage::ScienceTokens(t) => new.fields == (
        ProfileModel { science_tokens: t, ..old.fields }),
        ProfileInteractionMessage::SkinMessage(skin, unlocked) => {
            &&& new.fields.skins_unlocked@ == old.fields.skins_unlocked@.update(skin.idx(), unlocked)
            &&& new.fields == (ProfileModel {
                skins_unlocked: new.fields.skins_unlocked,
                ..old.fields
            })
        },
        ProfileInteractionMessage::SduMessage(slot, level) => {
            &&& new.fields.sdu_levels@ == old.fields.sdu_levels@.update(
                slot.idx(),
                level,
            )
            &&& new.fields == (ProfileModel {
                sdu_levels: new.fields.sdu_levels,
                ..old.fields
            })
        },
        ProfileInteractionMessage::MaxSduSlotsPressed => new.fields == (
        ProfileModel { sdu_levels: data.profile_sdu_maximum, ..old.fields }),
        ProfileInteractionMessage::GuardianRewardMessage(reward, tokens) => {
            &&& new.fields.guardian_rewards@ == old.fields.guardian_rewards@.update(reward.idx(), tokens)
            &&& new.fields == (ProfileModel {
                guardian_rewards: new.fields.guardian_rewards,
                ..old.fields
            })
        },
        ProfileInteractionMessage::MaxGuardianRewardsPressed => {
            &&& forall|k: int|
                0 <= k < 18 ==> #[trigger] new.fields.guardian_rewards@[k]
                    == i32::MAX
            &&& new.fields == (ProfileModel {
                guardian_rewards: new.fields.guardian_rewards,
                ..old.fields
            })
        },
    }
}

pub open spec fn keys_edit(old: ProfileViewState, msg: ProfileKeysInteractionMessage, new: ProfileViewState) -> bool {
    &&& new.profile_type_selected == old.profile_type_selected
    &&& new.fields == (ProfileModel { keys: new.fields.keys, ..old.fields })
    &&& match msg {
        ProfileKeysInteractionMessage::Keys(kind, n) => new.fields.keys@ == old.fields.keys@.update(kind.idx(), n),
        ProfileKeysInteractionMessage::MaxKeysPressed(kind) => new.fields.keys@
            == old.fields.keys@.update(kind.idx(), i32::MAX),
    }
}

impl ProfileViewState {
    pub fn apply_general(&mut self, msg: ProfileGeneralInteractionMessage)
        ensures
            profile_general_edit(*old(self), msg, *final(self)),
    {
        match msg {
            ProfileGeneralInteractionMessage::ProfileTypeSelected(p) => {
                self.profile_type_selected = p;
            },
        }
    }

    /// Applies an edit of the profile tab. The maximum SDU button sets every slot to its
    /// maximum; the maximum guardian rewards button sets every reward to `i32::MAX`.
    pub fn apply_profile(&mut self, msg: ProfileInteractionMessage, data: &GameData)
        ensures
            profile_edit(*old(self), msg, *data, *final(self)),
    {
        match msg {
            ProfileInteractionMessage::GuardianRankTokens(t) => {
                self.fields.guardian_rank_tokens = t;
            },
            ProfileInteractionMessage::ScienceLevelSelected(l) => {
                self.fields.science_level = l;
            },
            ProfileInteractionMessage::ScienceTokens(t) => {
                self.fields.science_tokens = t;
            },
            ProfileInteractionMessage::SkinMessage(skin, unlocked) => {
                self.fields.skins_unlocked[skin.index()] = unlocked;
            },
            ProfileInteractionMessage::SduMessage(slot, level) => {
                self.fields.sdu_levels[slot.index()] = level;
            },
            ProfileInteractionMessage::MaxSduSlotsPressed => {
                self.fields.sdu_levels = data.profile_sdu_maximum;
            },
            ProfileInteractionMessage::GuardianRewardMessage(reward, tokens) => {
                self.fields.guardian_rewards[reward.index()] = tokens;
            },
            ProfileInteractionMessage::MaxGuardianRewardsPressed => {
                self.fields.guardian_rewards = [i32::MAX; 18];
            },
        }
    }

    /// Applies an edit of the keys tab; a maximum button sets that count to `i32::MAX`.
    pub fn apply_keys(&mut self, msg: ProfileKeysInteractionMessage)
        ensures
            keys_edit(*old(self), msg, *final(self)),
    {
        match msg {
            ProfileKeysInteractionMessage::Keys(kind, n) => {
                self.fields.keys[kind.index()] = n;
            },
            ProfileKeysInteractionMessage::MaxKeysPressed(kind) => {
                self.fields.keys[kind.index()] = i32::MAX;
            },
        }
    }
}

/// The first rule that the pending profile fields break, in a fixed order, or `None` when
/// they may be written.
pub open spec fn profile_violation(f: ProfileModel, data: GameData) -> Option<ValidationError> {
    if f.guardian_rank_tokens < 0 {
        Some(ValidationError::GuardianRankTokensOutOfRange)
    } else if !(0 <= f.science_level <= data.max_science_level) {
        Some(ValidationError::ScienceLevelOutOfRange)
    } else if f.science_tokens < 0 {
        Some(ValidationError::ScienceTokensOutOfRange)
    } else if !within_maximum(f.sdu_levels@, data.profile_sdu_maximum@) {
        Some(ValidationError::SduOutOfRange)
    } else if !all_non_negative(f.guardian_rewards@) {
        Some(ValidationError::GuardianRewardOutOfRange)
    } else if !all_non_negative(f.keys@) {
        Some(ValidationError::KeysOutOfRange)
    } else {
        None
    }
}

impl ProfileFile {
    /// This file is `base` with every pending edit of `view` applied.
    pub open spec fn mapped_from(&self, view: &ProfileViewState, base: &ProfileFile) -> bool {
        &&& self.file_name@ == base.file_name@
        &&& self.platform == view.profile_type_selected
        &&& self.bytes@ == base.bytes@
        &&& self.model == view.fields
    }
}

/// Applies the pending edits to a copy of `current`, leaving `current` itself untouched.
/// Fails with the first rule that the edits break. On success it also reports whether
/// the guardian rewards changed, in which case the guardian data must be folded into the
/// profile when it is serialized.
pub fn map_all_states_to_profile(
    view: &ProfileViewState,
    current: &ProfileFile,
    data: &GameData,
) -> (r: Result<(ProfileFile, bool), ValidationError>)
    ensures
        match profile_violation(view.fields, *data) {
            Some(e) => r == Err::<(ProfileFile, bool), ValidationError>(e),
            None => {
                &&& r is Ok
                &&& r->Ok_0.0.mapped_from(view, current)
                &&& r->Ok_0.1 == (view.fields.guardian_rewards@ != current.model.guardian_rewards@)
            },
        },
{
    let f = &view.fields;
    if f.guardian_rank_tokens < 0 {
        return Err(ValidationError::GuardianRankTokensOutOfRange);
    }
    if f.science_level < 0 || f.science_level > data.max_science_level {
        return Err(ValidationError::ScienceLevelOutOfRange);
    }
    if f.science_tokens < 0 {
        return Err(ValidationError::ScienceTokensOutOfRange);
    }
    if !check_within_maximum(&f.sdu_levels, &data.profile_sdu_maximum) {
        return Err(ValidationError::SduOutOfRange);
    }
    if !check_non_negative(&f.guardian_rewards) {
        return Err(ValidationError::GuardianRewardOutOfRange);
    }
    if !check_non_negative(&f.keys) {
        return Err(ValidationError::KeysOutOfRange);
    }
    let injection_required = !same_values(&f.guardian_rewards, &current.model.guardian_rewards);
    let mut edited = current.copy();
    edited.platform = view.profile_type_selected;
    edited.model = view.fields;
    Ok((edited, injection_required))
}

} // verus!
