//! Message-driven controller and persistence pipeline of a save/profile editor.
//!
//! The controller is a pure transition function: it takes the current state and one
//! message and returns the next state together with the asynchronous command that the
//! runtime must perform. The runtime reports each command's outcome back as a message.
//! Committing edits runs as a pipeline of such steps: apply and validate the edits on a
//! copy, encode the copy, back up the pre-edit bytes, write the new bytes, rescan the
//! folder and select the written file again.

pub mod application;
pub mod files;
pub mod game_data;
pub mod laws;
pub mod message_result;
pub mod notification;
pub mod profile_state;
pub mod save_state;
pub mod slot_name;
pub mod validation;

pub use application::{
    Bl3Application, Bl3Message, ChooseSaveInteractionMessage, ChooseSaveMessage, Command,
    CommitStage, Config, ConfigMessage, DirectoryKind, InitializationMessage,
    InteractionMessage, ManageProfileInteractionMessage, ManageProfileState,
    ManageSaveInteractionMessage, ManageSaveState, PendingCommit, ProfileTabBarView, Release,
    SaveTabBarView, SettingsInteractionMessage, SettingsState, ViewState,
};
pub use files::{sort_files, FileKind, LoadedFile};
pub use game_data::GameData;
pub use message_result::MessageResult;
pub use notification::{Notification, NotificationSentiment};
pub use validation::ValidationError;
