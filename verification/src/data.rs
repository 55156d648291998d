//! The domain model: the values that the chat service speaks about.

use vstd::prelude::*;
use core::cmp::Ordering;
use vstd::std_specs::cmp::{PartialEqSpecImpl, PartialOrdSpecImpl};
use crate::order::{compare_ignore_case, lex_order};
use serde_json::Value;
use crate::json::{value_from_str, value_model, JsonModel};
use crate::protocol::fields::{read_u64, u64_of};
use crate::text::{decimal_string, decimal_text, eq_ignore_case, lower, lowercase, text_eq};
use crate::util::{fits, StackString};
use crate::wire::WireName;

verus! {

/// The gender that a character declares.
#[derive(Clone, Copy, Debug, PartialEq, Eq, Hash, Structural)]
pub enum Gender {
    Male,
    Female,
    Transgender,
    Herm,
    Shemale,
    MaleHerm,
    CBoy,
    Unspecified,
}

impl WireName for Gender {
    open spec fn wire(self) -> Seq<char> {
        match self {
            Gender::Male => "Male"@,
            Gender::Female => "Female"@,
            Gender::Transgender => "Transgender"@,
            Gender::Herm => "Herm"@,
            Gender::Shemale => "Shemale"@,
            Gender::MaleHerm => "Male-Herm"@,
            Gender::CBoy => "Cunt-boy"@,
            Gender::Unspecified => "None"@,
        }
    }

    open spec fn of_wire(name: Seq<char>) -> Option<Gender> {
        if name == "Male"@ {
            Some(Gender::Male)
        } else if name == "Female"@ {
            Some(Gender::Female)
        } else if name == "Transgender"@ {
            Some(Gender::Transgender)
        } else if name == "Herm"@ {
            Some(Gender::Herm)
        } else if name == "Shemale"@ {
            Some(Gender::Shemale)
        } else if name == "Male-Herm"@ {
            Some(Gender::MaleHerm)
        } else if name == "Cunt-boy"@ {
            Some(Gender::CBoy)
        } else if name == "None"@ {
            Some(Gender::Unspecified)
        } else {
            None
        }
    }

    fn wire_name(&self) -> (name: &'static str) {
        match self {
            Gender::Male => "Male",
            Gender::Female => "Female",
            Gender::Transgender => "Transgender",
            Gender::Herm => "Herm",
            Gender::Shemale => "Shemale",
            Gender::MaleHerm => "Male-Herm",
            Gender::CBoy => "Cunt-boy",
            Gender::Unspecified => "None",
        }
    }

    fn from_wire_name(name: &str) -> (r: Option<Gender>) {
        if text_eq(name, "Male") {
            Some(Gender::Male)
        } else if text_eq(name, "Female") {
            Some(Gender::Female)
        } else if text_eq(name, "Transgender") {
            Some(Gender::Transgender)
        } else if text_eq(name, "Herm") {
            Some(Gender::Herm)
        } else if text_eq(name, "Shemale") {
            Some(Gender::Shemale)
        } else if text_eq(name, "Male-Herm") {
            Some(Gender::MaleHerm)
        } else if text_eq(name, "Cunt-boy") {
            Some(Gender::CBoy)
        } else if text_eq(name, "None") {
            Some(Gender::Unspecified)
        } else {
            None
        }
    }

    proof fn lemma_wire_round_trip(self) {
        reveal_strlit("Male");
        assert("Male"@.len() == 4);
        reveal_strlit("Female");
        assert("Female"@.len() == 6);
        reveal_strlit("Transgender");
        assert("Transgender"@.len() == 11);
        reveal_strlit("Herm");
        assert("Herm"@.len() == 4);
        reveal_strlit("Shemale");
        assert("Shemale"@.len() == 7);
        reveal_strlit("Male-Herm");
        assert("Male-Herm"@.len() == 9);
        reveal_strlit("Cunt-boy");
        assert("Cunt-boy"@.len() == 8);
        reveal_strlit("None");
        assert("None"@.len() == 4);
        assert("Male"@[0] != "Herm"@[0]);
        assert("Male"@[0] != "None"@[0]);
        assert("Herm"@[0] != "None"@[0]);
    }
}

impl Default for Gender {
    fn default() -> (r: Self)
        ensures
            r == Gender::Unspecified,
    {
        Gender::Unspecified
    }
}


/// The orientation that a character declares.
#[derive(Clone, Copy, Debug, PartialEq, Eq, Hash, Structural)]
pub enum Orientation {
    Straight,
    Gay,
    Bisexual,
    Asexual,
    Unsure,
    BiMalePref,
    BiFemalePref,
    Pansexual,
    Bicurious,
}

impl WireName for Orientation {
    open spec fn wire(self) -> Seq<char> {
        match self {
            Orientation::Straight => "Straight"@,
            Orientation::Gay => "Gay"@,
            Orientation::Bisexual => "Bisexual"@,
            Orientation::Asexual => "Asexual"@,
            Orientation::Unsure => "Unsure"@,
            Orientation::BiMalePref => "Bi - male preference"@,
            Orientation::BiFemalePref => "Bi - female preference"@,
            Orientation::Pansexual => "Pansexual"@,
            Orientation::Bicurious => "Bi-curious"@,
        }
    }

    open spec fn of_wire(name: Seq<char>) -> Option<Orientation> {
        if name == "Straight"@ {
            Some(Orientation::Straight)
        } else if name == "Gay"@ {
            Some(Orientation::Gay)
        } else if name == "Bisexual"@ {
            Some(Orientation::Bisexual)
        } else if name == "Asexual"@ {
            Some(Orientation::Asexual)
        } else if name == "Unsure"@ {
            Some(Orientation::Unsure)
        } else if name == "Bi - male preference"@ {
            Some(Orientation::BiMalePref)
        } else if name == "Bi - female preference"@ {
            Some(Orientation::BiFemalePref)
        } else if name == "Pansexual"@ {
            Some(Orientation::Pansexual)
        } else if name == "Bi-curious"@ {
            Some(Orientation::Bicurious)
        } else {
            None
        }
    }

    fn wire_name(&self) -> (name: &'static str) {
        match self {
            Orientation::Straight => "Straight",
            Orientation::Gay => "Gay",
            Orientation::Bisexual => "Bisexual",
            Orientation::Asexual => "Asexual",
            Orientation::Unsure => "Unsure",
            Orientation::BiMalePref => "Bi - male preference",
            Orientation::BiFemalePref => "Bi - female preference",
            Orientation::Pansexual => "Pansexual",
            Orientation::Bicurious => "Bi-curious",
        }
    }

    fn from_wire_name(name: &str) -> (r: Option<Orientation>) {
        if text_eq(name, "Straight") {
            Some(Orientation::Straight)
        } else if text_eq(name, "Gay") {
            Some(Orientation::Gay)
        } else if text_eq(name, "Bisexual") {
            Some(Orientation::Bisexual)
        } else if text_eq(name, "Asexual") {
            Some(Orientation::Asexual)
        } else if text_eq(name, "Unsure") {
            Some(Orientation::Unsure)
        } else if text_eq(name, "Bi - male preference") {
            Some(Orientation::BiMalePref)
        } else if text_eq(name, "Bi - female preference") {
            Some(Orientation::BiFemalePref)
        } else if text_eq(name, "Pansexual") {
            Some(Orientation::Pansexual)
        } else if text_eq(name, "Bi-curious") {
            Some(Orientation::Bicurious)
        } else {
            None
        }
    }

    proof fn lemma_wire_round_trip(self) {
        reveal_strlit("Straight");
        assert("Straight"@.len() == 8);
        reveal_strlit("Gay");
        assert("Gay"@.len() == 3);
        reveal_strlit("Bisexual");
        assert("Bisexual"@.len() == 8);
        reveal_strlit("Asexual");
        assert("Asexual"@.len() == 7);
        reveal_strlit("Unsure");
        assert("Unsure"@.len() == 6);
        reveal_strlit("Bi - male preference");
        assert("Bi - male preference"@.len() == 20);
        reveal_strlit("Bi - female preference");
        assert("Bi - female preference"@.len() == 22);
        reveal_strlit("Pansexual");
        assert("Pansexual"@.len() == 9);
        reveal_strlit("Bi-curious");
        assert("Bi-curious"@.len() == 10);
        assert("Straight"@[0] != "Bisexual"@[0]);
    }
}

impl Default for Orientation {
    fn default() -> (r: Self)
        ensures
            r == Orientation::Unsure,
    {
        Orientation::Unsure
    }
}


/// The language that a character prefers.
#[derive(Clone, Copy, Debug, PartialEq, Eq, Hash, Structural)]
pub enum Language {
    Dutch,
    English,
    French,
    Spanish,
    German,
    Russian,
    Chinese,
    Japanese,
    Portuguese,
    Korean,
    Arabic,
    Italian,
    Swedish,
    Other,
}

impl WireName for Language {
    open spec fn wire(self) -> Seq<char> {
        match self {
            Language::Dutch => "Dutch"@,
            Language::English => "English"@,
            Language::French => "French"@,
            Language::Spanish => "Spanish"@,
            Language::German => "German"@,
            Language::Russian => "Russian"@,
            Language::Chinese => "Chinese"@,
            Language::Japanese => "Japanese"@,
            Language::Portuguese => "Portuguese"@,
            Language::Korean => "Korean"@,
            Language::Arabic => "Arabic"@,
            Language::Italian => "Italian"@,
            Language::Swedish => "Swedish"@,
            Language::Other => "Other"@,
        }
    }

    open spec fn of_wire(name: Seq<char>) -> Option<Language> {
        if name == "Dutch"@ {
            Some(Language::Dutch)
        } else if name == "English"@ {
            Some(Language::English)
        } else if name == "French"@ {
            Some(Language::French)
        } else if name == "Spanish"@ {
            Some(Language::Spanish)
        } else if name == "German"@ {
            Some(Language::German)
        } else if name == "Russian"@ {
            Some(Language::Russian)
        } else if name == "Chinese"@ {
            Some(Language::Chinese)
        } else if name == "Japanese"@ {
            Some(Language::Japanese)
        } else if name == "Portuguese"@ {
            Some(Language::Portuguese)
        } else if name == "Korean"@ {
            Some(Language::Korean)
        } else if name == "Arabic"@ {
            Some(Language::Arabic)
        } else if name == "Italian"@ {
            Some(Language::Italian)
        } else if name == "Swedish"@ {
            Some(Language::Swedish)
        } else if name == "Other"@ {
            Some(Language::Other)
        } else {
            None
        }
    }

    fn wire_name(&self) -> (name: &'static str) {
        match self {
            Language::Dutch => "Dutch",
            Language::English => "English",
            Language::French => "French",
            Language::Spanish => "Spanish",
            Language::German => "German",
            Language::Russian => "Russian",
            Language::Chinese => "Chinese",
            Language::Japanese => "Japanese",
            Language::Portuguese => "Portuguese",
            Language::Korean => "Korean",
            Language::Arabic => "Arabic",
            Language::Italian => "Italian",
            Language::Swedish => "Swedish",
            Language::Other => "Other",
        }
    }

    fn from_wire_name(name: &str) -> (r: Option<Language>) {
        if text_eq(name, "Dutch") {
            Some(Language::Dutch)
        } else if text_eq(name, "English") {
            Some(Language::English)
        } else if text_eq(name, "French") {
            Some(Language::French)
        } else if text_eq(name, "Spanish") {
            Some(Language::Spanish)
        } else if text_eq(name, "German") {
            Some(Language::German)
        } else if text_eq(name, "Russian") {
            Some(Language::Russian)
        } else if text_eq(name, "Chinese") {
            Some(Language::Chinese)
        } else if text_eq(name, "Japanese") {
            Some(Language::Japanese)
        } else if text_eq(name, "Portuguese") {
            Some(Language::Portuguese)
        } else if text_eq(name, "Korean") {
            Some(Language::Korean)
        } else if text_eq(name, "Arabic") {
            Some(Language::Arabic)
        } else if text_eq(name, "Italian") {
            Some(Language::Italian)
        } else if text_eq(name, "Swedish") {
            Some(Language::Swedish)
        } else if text_eq(name, "Other") {
            Some(Language::Other)
        } else {
            None
        }
    }

    proof fn lemma_wire_round_trip(self) {
        reveal_strlit("Dutch");
        assert("Dutch"@.len() == 5);
        reveal_strlit("English");
        assert("English"@.len() == 7);
        reveal_strlit("French");
        assert("French"@.len() == 6);
        reveal_strlit("Spanish");
        assert("Spanish"@.len() == 7);
        reveal_strlit("German");
        assert("German"@.len() == 6);
        reveal_strlit("Russian");
        assert("Russian"@.len() == 7);
        reveal_strlit("Chinese");
        assert("Chinese"@.len() == 7);
        reveal_strlit("Japanese");
        assert("Japanese"@.len() == 8);
        reveal_strlit("Portuguese");
        assert("Portuguese"@.len() == 10);
        reveal_strlit("Korean");
        assert("Korean"@.len() == 6);
        reveal_strlit("Arabic");
        assert("Arabic"@.len() == 6);
        reveal_strlit("Italian");
        assert("Italian"@.len() == 7);
        reveal_strlit("Swedish");
        assert("Swedish"@.len() == 7);
        reveal_strlit("Other");
        assert("Other"@.len() == 5);
        assert("Dutch"@[0] != "Other"@[0]);
        assert("English"@[0] != "Spanish"@[0]);
        assert("English"@[0] != "Russian"@[0]);
        assert("English"@[0] != "Chinese"@[0]);
        assert("English"@[0] != "Italian"@[0]);
        assert("English"@[0] != "Swedish"@[0]);
        assert("French"@[0] != "German"@[0]);
        assert("French"@[0] != "Korean"@[0]);
        assert("French"@[0] != "Arabic"@[0]);
        assert("Spanish"@[0] != "Russian"@[0]);
        assert("Spanish"@[0] != "Chinese"@[0]);
        assert("Spanish"@[0] != "Italian"@[0]);
        assert("Spanish"@[1] != "Swedish"@[1]);
        assert("German"@[0] != "Korean"@[0]);
        assert("German"@[0] != "Arabic"@[0]);
        assert("Russian"@[0] != "Chinese"@[0]);
        assert("Russian"@[0] != "Italian"@[0]);
        assert("Russian"@[0] != "Swedish"@[0]);
        assert("Chinese"@[0] != "Italian"@[0]);
        assert("Chinese"@[0] != "Swedish"@[0]);
        assert("Korean"@[0] != "Arabic"@[0]);
        assert("Italian"@[0] != "Swedish"@[0]);
    }
}

impl Default for Language {
    fn default() -> (r: Self)
        ensures
            r == Language::English,
    {
        Language::English
    }
}


/// How a character stands to furry and human partners.
#[derive(Clone, Copy, Debug, PartialEq, Eq, Hash, Structural)]
pub enum FurryPreference {
    HumanOnly,
    HumanPref,
    Both,
    FurryPref,
    FurryOnly,
}

impl WireName for FurryPreference {
    open spec fn wire(self) -> Seq<char> {
        match self {
            FurryPreference::HumanOnly => "No furry characters, just humans"@,
            FurryPreference::HumanPref => "Furries ok, Humans Preferred"@,
            FurryPreference::Both => "Furs and / or humans"@,
            FurryPreference::FurryPref => "Humans ok, Furries Preferred"@,
            FurryPreference::FurryOnly => "No humans, just furry characters"@,
        }
    }

    open spec fn of_wire(name: Seq<char>) -> Option<FurryPreference> {
        if name == "No furry characters, just humans"@ {
            Some(FurryPreference::HumanOnly)
        } else if name == "Furries ok, Humans Preferred"@ {
            Some(FurryPreference::HumanPref)
        } else if name == "Furs and / or humans"@ {
            Some(FurryPreference::Both)
        } else if name == "Humans ok, Furries Preferred"@ {
            Some(FurryPreference::FurryPref)
        } else if name == "No humans, just furry characters"@ {
            Some(FurryPreference::FurryOnly)
        } else {
            None
        }
    }

    fn wire_name(&self) -> (name: &'static str) {
        match self {
            FurryPreference::HumanOnly => "No furry characters, just humans",
            FurryPreference::HumanPref => "Furries ok, Humans Preferred",
            FurryPreference::Both => "Furs and / or humans",
            FurryPreference::FurryPref => "Humans ok, Furries Preferred",
            FurryPreference::FurryOnly => "No humans, just furry characters",
        }
    }

    fn from_wire_name(name: &str) -> (r: Option<FurryPreference>) {
        if text_eq(name, "No furry characters, just humans") {
            Some(FurryPreference::HumanOnly)
        } else if text_eq(name, "Furries ok, Humans Preferred") {
            Some(FurryPreference::HumanPref)
        } else if text_eq(name, "Furs and / or humans") {
            Some(FurryPreference::Both)
        } else if text_eq(name, "Humans ok, Furries Preferred") {
            Some(FurryPreference::FurryPref)
        } else if text_eq(name, "No humans, just furry characters") {
            Some(FurryPreference::FurryOnly)
        } else {
            None
        }
    }

    proof fn lemma_wire_round_trip(self) {
        reveal_strlit("No furry characters, just humans");
        assert("No furry characters, just humans"@.len() == 32);
        reveal_strlit("Furries ok, Humans Preferred");
        assert("Furries ok, Humans Preferred"@.len() == 28);
        reveal_strlit("Furs and / or humans");
        assert("Furs and / or humans"@.len() == 20);
        reveal_strlit("Humans ok, Furries Preferred");
        assert("Humans ok, Furries Preferred"@.len() == 28);
        reveal_strlit("No humans, just furry characters");
        assert("No humans, just furry characters"@.len() == 32);
        assert("No furry characters, just humans"@[3] != "No humans, just furry characters"@[3]);
        assert("Furries ok, Humans Preferred"@[0] != "Humans ok, Furries Preferred"@[0]);
    }
}

impl Default for FurryPreference {
    fn default() -> (r: Self)
        ensures
            r == FurryPreference::Both,
    {
        FurryPreference::Both
    }
}


/// The role that a character prefers.
#[derive(Clone, Copy, Debug, PartialEq, Eq, Hash, Structural)]
pub enum Role {
    AlwaysDom,
    UsuallyDom,
    Switch,
    UsuallySub,
    AlwaysSub,
    Unspecified,
}

impl WireName for Role {
    open spec fn wire(self) -> Seq<char> {
        match self {
            Role::AlwaysDom => "Always dominant"@,
            Role::UsuallyDom => "Usually dominant"@,
            Role::Switch => "Switch"@,
            Role::UsuallySub => "Usually submissive"@,
            Role::AlwaysSub => "Always submissive"@,
            Role::Unspecified => "None"@,
        }
    }

    open spec fn of_wire(name: Seq<char>) -> Option<Role> {
        if name == "Always dominant"@ {
            Some(Role::AlwaysDom)
        } else if name == "Usually dominant"@ {
            Some(Role::UsuallyDom)
        } else if name == "Switch"@ {
            Some(Role::Switch)
        } else if name == "Usually submissive"@ {
            Some(Role::UsuallySub)
        } else if name == "Always submissive"@ {
            Some(Role::AlwaysSub)
        } else if name == "None"@ {
            Some(Role::Unspecified)
        } else {
            None
        }
    }

    fn wire_name(&self) -> (name: &'static str) {
        match self {
            Role::AlwaysDom => "Always dominant",
            Role::UsuallyDom => "Usually dominant",
            Role::Switch => "Switch",
            Role::UsuallySub => "Usually submissive",
            Role::AlwaysSub => "Always submissive",
            Role::Unspecified => "None",
        }
    }

    fn from_wire_name(name: &str) -> (r: Option<Role>) {
        if text_eq(name, "Always dominant") {
            Some(Role::AlwaysDom)
        } else if text_eq(name, "Usually dominant") {
            Some(Role::UsuallyDom)
        } else if text_eq(name, "Switch") {
            Some(Role::Switch)
        } else if text_eq(name, "Usually submissive") {
            Some(Role::UsuallySub)
        } else if text_eq(name, "Always submissive") {
            Some(Role::AlwaysSub)
        } else if text_eq(name, "None") {
            Some(Role::Unspecified)
        } else {
            None
        }
    }

    proof fn lemma_wire_round_trip(self) {
        reveal_strlit("Always dominant");
        assert("Always dominant"@.len() == 15);
        reveal_strlit("Usually dominant");
        assert("Usually dominant"@.len() == 16);
        reveal_strlit("Switch");
        assert("Switch"@.len() == 6);
        reveal_strlit("Usually submissive");
        assert("Usually submissive"@.len() == 18);
        reveal_strlit("Always submissive");
        assert("Always submissive"@.len() == 17);
        reveal_strlit("None");
        assert("None"@.len() == 4);
    }
}

impl Default for Role {
    fn default() -> (r: Self)
        ensures
            r == Role::Unspecified,
    {
        Role::Unspecified
    }
}


/// What a channel accepts: chat, ads, or both.
#[derive(Clone, Copy, Debug, PartialEq, Eq, Hash, Structural)]
pub enum ChannelMode {
    ChatOnly,
    AdsOnly,
    Both,
}

impl WireName for ChannelMode {
    open spec fn wire(self) -> Seq<char> {
        match self {
            ChannelMode::ChatOnly => "chat"@,
            ChannelMode::AdsOnly => "ads"@,
            ChannelMode::Both => "both"@,
        }
    }

    open spec fn of_wire(name: Seq<char>) -> Option<ChannelMode> {
        if name == "chat"@ {
            Some(ChannelMode::ChatOnly)
        } else if name == "ads"@ {
            Some(ChannelMode::AdsOnly)
        } else if name == "both"@ {
            Some(ChannelMode::Both)
        } else {
            None
        }
    }

    fn wire_name(&self) -> (name: &'static str) {
        match self {
            ChannelMode::ChatOnly => "chat",
            ChannelMode::AdsOnly => "ads",
            ChannelMode::Both => "both",
        }
    }

    fn from_wire_name(name: &str) -> (r: Option<ChannelMode>) {
        if text_eq(name, "chat") {
            Some(ChannelMode::ChatOnly)
        } else if text_eq(name, "ads") {
            Some(ChannelMode::AdsOnly)
        } else if text_eq(name, "both") {
            Some(ChannelMode::Both)
        } else {
            None
        }
    }

    proof fn lemma_wire_round_trip(self) {
        reveal_strlit("chat");
        assert("chat"@.len() == 4);
        reveal_strlit("ads");
        assert("ads"@.len() == 3);
        reveal_strlit("both");
        assert("both"@.len() == 4);
        assert("chat"@[0] != "both"@[0]);
    }
}

impl Default for ChannelMode {
    fn default() -> (r: Self)
        ensures
            r == ChannelMode::Both,
    {
        ChannelMode::Both
    }
}


/// Whether a channel is open to everyone.
#[derive(Clone, Copy, Debug, PartialEq, Eq, Hash, Structural)]
pub enum ChannelStatus {
    Public,
    Private,
}

impl WireName for ChannelStatus {
    open spec fn wire(self) -> Seq<char> {
        match self {
            ChannelStatus::Public => "public"@,
            ChannelStatus::Private => "private"@,
        }
    }

    open spec fn of_wire(name: Seq<char>) -> Option<ChannelStatus> {
        if name == "public"@ {
            Some(ChannelStatus::Public)
        } else if name == "private"@ {
            Some(ChannelStatus::Private)
        } else {
            None
        }
    }

    fn wire_name(&self) -> (name: &'static str) {
        match self {
            ChannelStatus::Public => "public",
            ChannelStatus::Private => "private",
        }
    }

    fn from_wire_name(name: &str) -> (r: Option<ChannelStatus>) {
        if text_eq(name, "public") {
            Some(ChannelStatus::Public)
        } else if text_eq(name, "private") {
            Some(ChannelStatus::Private)
        } else {
            None
        }
    }

    proof fn lemma_wire_round_trip(self) {
        reveal_strlit("public");
        assert("public"@.len() == 6);
        reveal_strlit("private");
        assert("private"@.len() == 7);
    }
}

impl Default for ChannelStatus {
    fn default() -> (r: Self)
        ensures
            r == ChannelStatus::Public,
    {
        ChannelStatus::Public
    }
}


/// The presence of a character. `Offline` never comes as a status on the wire:
/// the server reports it with a command of its own.
#[derive(Clone, Copy, Debug, PartialEq, Eq, Hash, Structural)]
pub enum Status {
    Online,
    Looking,
    Busy,
    Dnd,
    Idle,
    Away,
    Crown,
    Offline,
}

impl WireName for Status {
    open spec fn wire(self) -> Seq<char> {
        match self {
            Status::Online => "online"@,
            Status::Looking => "looking"@,
            Status::Busy => "busy"@,
            Status::Dnd => "dnd"@,
            Status::Idle => "idle"@,
            Status::Away => "away"@,
            Status::Crown => "crown"@,
            Status::Offline => "offline"@,
        }
    }

    open spec fn of_wire(name: Seq<char>) -> Option<Status> {
        if name == "online"@ {
            Some(Status::Online)
        } else if name == "looking"@ {
            Some(Status::Looking)
        } else if name == "busy"@ {
            Some(Status::Busy)
        } else if name == "dnd"@ {
            Some(Status::Dnd)
        } else if name == "idle"@ {
            Some(Status::Idle)
        } else if name == "away"@ {
            Some(Status::Away)
        } else if name == "crown"@ {
            Some(Status::Crown)
        } else if name == "offline"@ {
            Some(Status::Offline)
        } else {
            None
        }
    }

    fn wire_name(&self) -> (name: &'static str) {
        match self {
            Status::Online => "online",
            Status::Looking => "looking",
            Status::Busy => "busy",
            Status::Dnd => "dnd",
            Status::Idle => "idle",
            Status::Away => "away",
            Status::Crown => "crown",
            Status::Offline => "offline",
        }
    }

    fn from_wire_name(name: &str) -> (r: Option<Status>) {
        if text_eq(name, "online") {
            Some(Status::Online)
        } else if text_eq(name, "looking") {
            Some(Status::Looking)
        } else if text_eq(name, "busy") {
            Some(Status::Busy)
        } else if text_eq(name, "dnd") {
            Some(Status::Dnd)
        } else if text_eq(name, "idle") {
            Some(Status::Idle)
        } else if text_eq(name, "away") {
            Some(Status::Away)
        } else if text_eq(name, "crown") {
            Some(Status::Crown)
        } else if text_eq(name, "offline") {
            Some(Status::Offline)
        } else {
            None
        }
    }

    proof fn lemma_wire_round_trip(self) {
        reveal_strlit("online");
        assert("online"@.len() == 6);
        reveal_strlit("looking");
        assert("looking"@.len() == 7);
        reveal_strlit("busy");
        assert("busy"@.len() == 4);
        reveal_strlit("dnd");
        assert("dnd"@.len() == 3);
        reveal_strlit("idle");
        assert("idle"@.len() == 4);
        reveal_strlit("away");
        assert("away"@.len() == 4);
        reveal_strlit("crown");
        assert("crown"@.len() == 5);
        reveal_strlit("offline");
        assert("offline"@.len() == 7);
        assert("looking"@[0] != "offline"@[0]);
        assert("busy"@[0] != "idle"@[0]);
        assert("busy"@[0] != "away"@[0]);
        assert("idle"@[0] != "away"@[0]);
    }
}

impl Default for Status {
    fn default() -> (r: Self)
        ensures
            r == Status::Online,
    {
        Status::Online
    }
}


/// What a partner in a private conversation is doing.
#[derive(Clone, Copy, Debug, PartialEq, Eq, Hash, Structural)]
pub enum TypingStatus {
    Clear,
    Paused,
    Typing,
}

impl WireName for TypingStatus {
    open spec fn wire(self) -> Seq<char> {
        match self {
            TypingStatus::Clear => "clear"@,
            TypingStatus::Paused => "paused"@,
            TypingStatus::Typing => "typing"@,
        }
    }

    open spec fn of_wire(name: Seq<char>) -> Option<TypingStatus> {
        if name == "clear"@ {
            Some(TypingStatus::Clear)
        } else if name == "paused"@ {
            Some(TypingStatus::Paused)
        } else if name == "typing"@ {
            Some(TypingStatus::Typing)
        } else {
            None
        }
    }

    fn wire_name(&self) -> (name: &'static str) {
        match self {
            TypingStatus::Clear => "clear",
            TypingStatus::Paused => "paused",
            TypingStatus::Typing => "typing",
        }
    }

    fn from_wire_name(name: &str) -> (r: Option<TypingStatus>) {
        if text_eq(name, "clear") {
            Some(TypingStatus::Clear)
        } else if text_eq(name, "paused") {
            Some(TypingStatus::Paused)
        } else if text_eq(name, "typing") {
            Some(TypingStatus::Typing)
        } else {
            None
        }
    }

    proof fn lemma_wire_round_trip(self) {
        reveal_strlit("clear");
        assert("clear"@.len() == 5);
        reveal_strlit("paused");
        assert("paused"@.len() == 6);
        reveal_strlit("typing");
        assert("typing"@.len() == 6);
        assert("paused"@[0] != "typing"@[0]);
    }
}

impl Default for TypingStatus {
    fn default() -> (r: Self)
        ensures
            r == TypingStatus::Clear,
    {
        TypingStatus::Clear
    }
}


/// How much a character likes a kink.
#[derive(Clone, Copy, Debug, PartialEq, Eq, Hash, Structural)]
pub enum KinkInterest {
    Fave,
    Yes,
    Maybe,
    No,
}

impl WireName for KinkInterest {
    open spec fn wire(self) -> Seq<char> {
        match self {
            KinkInterest::Fave => "fave"@,
            KinkInterest::Yes => "yes"@,
            KinkInterest::Maybe => "maybe"@,
            KinkInterest::No => "no"@,
        }
    }

    open spec fn of_wire(name: Seq<char>) -> Option<KinkInterest> {
        if name == "fave"@ {
            Some(KinkInterest::Fave)
        } else if name == "yes"@ {
            Some(KinkInterest::Yes)
        } else if name == "maybe"@ {
            Some(KinkInterest::Maybe)
        } else if name == "no"@ {
            Some(KinkInterest::No)
        } else {
            None
        }
    }

    fn wire_name(&self) -> (name: &'static str) {
        match self {
            KinkInterest::Fave => "fave",
            KinkInterest::Yes => "yes",
            KinkInterest::Maybe => "maybe",
            KinkInterest::No => "no",
        }
    }

    fn from_wire_name(name: &str) -> (r: Option<KinkInterest>) {
        if text_eq(name, "fave") {
            Some(KinkInterest::Fave)
        } else if text_eq(name, "yes") {
            Some(KinkInterest::Yes)
        } else if text_eq(name, "maybe") {
            Some(KinkInterest::Maybe)
        } else if text_eq(name, "no") {
            Some(KinkInterest::No)
        } else {
            None
        }
    }

    proof fn lemma_wire_round_trip(self) {
        reveal_strlit("fave");
        assert("fave"@.len() == 4);
        reveal_strlit("yes");
        assert("yes"@.len() == 3);
        reveal_strlit("maybe");
        assert("maybe"@.len() == 5);
        reveal_strlit("no");
        assert("no"@.len() == 2);
    }
}


/// The name of a chat room: at most 26 bytes.
///
/// Official rooms go by their title, private rooms by an id that starts with
/// `ADH-`. Two names that differ only in the case of ASCII letters name the
/// same room.
#[derive(Clone, Copy, Debug)]
pub struct Channel(pub StackString<26>);

impl Default for Channel {
    /// The empty name.
    fn default() -> (c: Self)
        ensures
            c@ == Seq::<char>::empty(),
    {
        Channel(StackString::default())
    }
}

impl View for Channel {
    type V = Seq<char>;

    open spec fn view(&self) -> Seq<char> {
        self.0@
    }
}

impl Channel {
    /// Well-formedness: the name is well-formed text of at most 26 bytes.
    pub open spec fn wf(self) -> bool {
        self.0.wf()
    }

    /// A well-formed name fits.
    pub proof fn lemma_fits(self)
        requires
            self.wf(),
        ensures
            fits(self@, 26),
    {
        self.0.lemma_fits();
    }

    /// The identity of the room: its name in lower case.
    pub open spec fn key(self) -> Seq<char> {
        lower(self@)
    }

    /// The room of the given name, which must fit in 26 bytes.
    pub fn new(name: &str) -> (c: Self)
        requires
            fits(name@, 26),
        ensures
            c@ == name@,
    {
        Channel(StackString::new(name))
    }

    /// The room of the given name, if the name fits in 26 bytes.
    pub fn try_new(name: &str) -> (r: Option<Self>)
        ensures
            r.is_some() == fits(name@, 26),
            r matches Some(c) ==> c@ == name@,
    {
        match StackString::try_new(name) {
            Ok(s) => Some(Channel(s)),
            Err(_) => None,
        }
    }

    /// The name as it was given.
    pub fn as_str(&self) -> (s: &str)
        ensures
            s@ == self@,
    {
        self.0.as_str()
    }

    /// The name in lower case, by which containers key a room.
    pub fn key_string(&self) -> (k: String)
        ensures
            k@ == self.key(),
    {
        lowercase(self.0.as_str())
    }
}

impl PartialEq for Channel {
    fn eq(&self, other: &Self) -> (r: bool) {
        eq_ignore_case(self.0.as_str(), other.0.as_str())
    }
}

impl PartialEqSpecImpl for Channel {
    open spec fn obeys_eq_spec() -> bool {
        true
    }

    open spec fn eq_spec(&self, other: &Self) -> bool {
        self.key() == other.key()
    }
}

impl Eq for Channel {

}

impl PartialOrd for Channel {
    fn partial_cmp(&self, other: &Self) -> (r: Option<Ordering>) {
        Some(compare_ignore_case(self.0.as_str(), other.0.as_str()))
    }
}

impl PartialOrdSpecImpl for Channel {
    open spec fn obeys_partial_cmp_spec() -> bool {
        true
    }

    open spec fn partial_cmp_spec(&self, other: &Self) -> Option<Ordering> {
        Some(lex_order(self.key(), other.key()))
    }
}

/// The name of a character: at most 20 bytes.
///
/// Two names that differ only in the case of ASCII letters name the same
/// character.
#[derive(Clone, Copy, Debug)]
pub struct Character(pub StackString<20>);

impl Default for Character {
    /// The empty name.
    fn default() -> (c: Self)
        ensures
            c@ == Seq::<char>::empty(),
    {
        Character(StackString::default())
    }
}

impl View for Character {
    type V = Seq<char>;

    open spec fn view(&self) -> Seq<char> {
        self.0@
    }
}

impl Character {
    /// Well-formedness: the name is well-formed text of at most 20 bytes.
    pub open spec fn wf(self) -> bool {
        self.0.wf()
    }

    /// A well-formed name fits.
    pub proof fn lemma_fits(self)
        requires
            self.wf(),
        ensures
            fits(self@, 20),
    {
        self.0.lemma_fits();
    }

    /// The identity of the character: its name in lower case.
    pub open spec fn key(self) -> Seq<char> {
        lower(self@)
    }

    /// The character of the given name, which must fit in 20 bytes.
    pub fn new(name: &str) -> (c: Self)
        requires
            fits(name@, 20),
        ensures
            c@ == name@,
    {
        Character(StackString::new(name))
    }

    /// The character of the given name, if the name fits in 20 bytes.
    pub fn try_new(name: &str) -> (r: Option<Self>)
        ensures
            r.is_some() == fits(name@, 20),
            r matches Some(c) ==> c@ == name@,
    {
        match StackString::try_new(name) {
            Ok(s) => Some(Character(s)),
            Err(_) => None,
        }
    }

    /// The name as it was given.
    pub fn as_str(&self) -> (s: &str)
        ensures
            s@ == self@,
    {
        self.0.as_str()
    }

    /// The name in lower case, by which containers key a character.
    pub fn key_string(&self) -> (k: String)
        ensures
            k@ == self.key(),
    {
        lowercase(self.0.as_str())
    }
}

impl PartialEq for Character {
    fn eq(&self, other: &Self) -> (r: bool) {
        eq_ignore_case(self.0.as_str(), other.0.as_str())
    }
}

impl PartialEqSpecImpl for Character {
    open spec fn obeys_eq_spec() -> bool {
        true
    }

    open spec fn eq_spec(&self, other: &Self) -> bool {
        self.key() == other.key()
    }
}

impl Eq for Character {

}

impl PartialOrd for Character {
    fn partial_cmp(&self, other: &Self) -> (r: Option<Ordering>) {
        Some(compare_ignore_case(self.0.as_str(), other.0.as_str()))
    }
}

impl PartialOrdSpecImpl for Character {
    open spec fn obeys_partial_cmp_spec() -> bool {
        true
    }

    open spec fn partial_cmp_spec(&self, other: &Self) -> Option<Ordering> {
        Some(lex_order(self.key(), other.key()))
    }
}

/// The number by which the site knows a character.
#[derive(Clone, Copy, Debug, PartialEq, Eq, PartialOrd, Ord, Hash, Structural)]
pub struct CharacterId(pub u64);

impl CharacterId {
    /// The document that stands for the number: its numeral as a string.
    pub open spec fn json(self) -> JsonModel {
        JsonModel::Str(decimal_text(self.0 as nat))
    }

    /// Writes the number as a document.
    pub fn to_value(&self) -> (v: Value)
        ensures
            value_model(v) == self.json(),
    {
        let text = decimal_string(self.0);
        value_from_str(text.as_str())
    }

    /// Reads a document: a string of digits, or a number.
    pub fn read(v: &Value) -> (r: Option<CharacterId>)
        ensures
            r == (match u64_of(value_model(*v)) {
                Some(n) => Some(CharacterId(n)),
                None => None,
            }),
    {
        match read_u64(v) {
            Some(n) => Some(CharacterId(n)),
            None => None,
        }
    }
}

/// One side's record of a friendship: `own_character` counts
/// `other_character` among its friends. A friendship between two characters
/// of the same account appears once for each.
#[derive(Clone, Copy, Debug, PartialEq, Eq)]
pub struct FriendRelation {
    pub own_character: Character,
    pub other_character: Character,
}

/// A conversation: a room, or the private exchange between one's own
/// character (first) and a partner (second).
#[derive(Clone, Copy, Debug, PartialEq, Eq)]
pub enum MessageChannel {
    Channel(Channel),
    PrivateMessage(Character, Character),
}

/// Seconds since the Unix epoch, in UTC.
pub type Timestamp = i64;

/// One entry of a conversation.
#[derive(Clone, Debug, PartialEq, Eq)]
pub struct Message {
    pub timestamp: Timestamp,
    pub character: Character,
    pub content: MessageContent,
}

/// What an entry of a conversation says.
#[derive(Clone, Debug, PartialEq, Eq)]
pub enum MessageContent {
    /// Plain text.
    Message(String),
    /// An action, told in the third person.
    Emote(String),
    /// Dice: the expressions rolled, the result of each, and the total.
    Roll(Vec<String>, Vec<i32>, i32),
    /// A spun bottle and the character it points at.
    Bottle(Character),
}

/// What is known of a room.
#[derive(Clone, Debug, Default, PartialEq, Eq)]
pub struct ChannelData {
    pub channel: Channel,
    pub channel_mode: ChannelMode,
    pub members: Vec<Character>,
    pub description: String,
    pub title: String,
}

/// What is known of a character.
#[derive(Clone, Debug, Default, PartialEq, Eq)]
pub struct CharacterData {
    pub character: Character,
    pub gender: Gender,
    pub status: Status,
    pub status_message: String,
}

} // verus!
