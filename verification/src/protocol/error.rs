//! The errors that the server reports with an `ERR` frame.

use vstd::prelude::*;
use vstd::std_specs::convert::FromSpecImpl;

verus! {

/// An error of the server, by its number.
#[derive(Clone, Copy, Debug, PartialEq, Eq, Hash, Structural)]
pub enum ProtocolError {
    /// 0: no error.
    Success,
    /// 1: the command was malformed.
    SyntaxError,
    /// 2: the server accepts no more connections.
    FullServer,
    /// 3: the connection has not identified itself.
    Unauthenticated,
    /// 4: the identification was rejected.
    AuthenticationFailed,
    /// 5: messages are sent too fast.
    MessageCooldown,
    /// 6: the character does not exist.
    NoSuchCharacter,
    /// 7: profiles are asked for too fast.
    ProfileCooldown,
    /// 8: the server does not know the command.
    UnknownCommand,
    /// 9: the account is banned.
    Banned,
    /// 10: the command is for administrators.
    AdminRequired,
    /// 11: the connection has identified itself already.
    AlreadyIdentified,
    /// 13: kinks are asked for too fast.
    KinkCooldown,
    /// 15: the message is too long.
    MessageTooLong,
    /// 16: the character is a global moderator already.
    AlreadyModerator,
    /// 17: the character is no global moderator.
    NotAModerator,
    /// 18: the search found nobody.
    NoResults,
    /// 19: the command is for moderators.
    ModeratorRequired,
    /// 20: the recipient ignores the sender.
    Ignored,
    /// 21: the action cannot be done to that character.
    InvalidTarget,
    /// 26: the room does not exist.
    NoSuchChannel,
    /// 28: the character is in the room already.
    AlreadyInChannel,
    /// 30: the account has too many connections.
    TooManySessions,
    /// 31: the character logged in elsewhere.
    AnotherConnection,
    /// 32: the account is banned already.
    AlreadyBanned,
    /// 33: the method of identification is not known.
    InvalidAuthentication,
    /// 36: the dice could not be rolled.
    RollError,
    /// 38: the length of the timeout is not valid.
    InvalidTimeoutDuration,
    /// 39: the account is timed out.
    TimeOut,
    /// 40: the character was kicked from the service.
    Kick,
    /// 41: the character is banned from the room already.
    AlreadyChannelBanned,
    /// 42: the character is not banned from the room.
    NotChannelBanned,
    /// 44: the room is open to the invited only.
    ChannelInviteRequired,
    /// 45: the character is not in the room.
    ChannelJoinRequired,
    /// 47: nobody is invited to an official room.
    ChannelInviteForbidden,
    /// 48: the character is banned from the room.
    ChannelBanned,
    /// 49: that character is not in the room.
    CharacterNotInChannel,
    /// 50: searches are made too fast.
    SearchCooldown,
    /// 54: reports are filed too fast.
    ReportCooldown,
    /// 56: ads are posted too fast.
    AdCooldown,
    /// 59: the room takes no ads.
    MessageOnly,
    /// 60: the room takes ads only.
    AdsOnly,
    /// 61: the search has too many terms.
    TooManySearchTerms,
    /// 62: the server has no free slot.
    NoFreeSlots,
    /// 64: the ignore list is full.
    IgnoreListTooLong,
    /// 67: the title of the room is too long.
    ChannelTitleTooLong,
    /// 72: the search found too many.
    TooManySearchResults,
    /// -1: the server failed.
    InternalError,
    /// -2: the server failed on the command.
    CommandError,
    /// -3: the server has no such command yet.
    Unimplemented,
    /// -4: the login took too long.
    LoginTimeOut,
    /// -5: an error that the server cannot name.
    UnknownError,
    /// -10: dice are not rolled in that room.
    FrontpageDice,
    /// Any number without a name of its own.
    Other,
}

impl ProtocolError {
    /// The number of the error. `Other` stands for every number that has no
    /// name and gives 9999.
    pub open spec fn code(self) -> int {
        match self {
            ProtocolError::Success => 0,
            ProtocolError::SyntaxError => 1,
            ProtocolError::FullServer => 2,
            ProtocolError::Unauthenticated => 3,
            ProtocolError::AuthenticationFailed => 4,
            ProtocolError::MessageCooldown => 5,
            ProtocolError::NoSuchCharacter => 6,
            ProtocolError::ProfileCooldown => 7,
            ProtocolError::UnknownCommand => 8,
            ProtocolError::Banned => 9,
            ProtocolError::AdminRequired => 10,
            ProtocolError::AlreadyIdentified => 11,
            ProtocolError::KinkCooldown => 13,
            ProtocolError::MessageTooLong => 15,
            ProtocolError::AlreadyModerator => 16,
            ProtocolError::NotAModerator => 17,
            ProtocolError::NoResults => 18,
            ProtocolError::ModeratorRequired => 19,
            ProtocolError::Ignored => 20,
            ProtocolError::InvalidTarget => 21,
            ProtocolError::NoSuchChannel => 26,
            ProtocolError::AlreadyInChannel => 28,
            ProtocolError::TooManySessions => 30,
            ProtocolError::AnotherConnection => 31,
            ProtocolError::AlreadyBanned => 32,
            ProtocolError::InvalidAuthentication => 33,
            ProtocolError::RollError => 36,
            ProtocolError::InvalidTimeoutDuration => 38,
            ProtocolError::TimeOut => 39,
            ProtocolError::Kick => 40,
            ProtocolError::AlreadyChannelBanned => 41,
            ProtocolError::NotChannelBanned => 42,
            ProtocolError::ChannelInviteRequired => 44,
            ProtocolError::ChannelJoinRequired => 45,
            ProtocolError::ChannelInviteForbidden => 47,
            ProtocolError::ChannelBanned => 48,
            ProtocolError::CharacterNotInChannel => 49,
            ProtocolError::SearchCooldown => 50,
            ProtocolError::ReportCooldown => 54,
            ProtocolError::AdCooldown => 56,
            ProtocolError::MessageOnly => 59,
            ProtocolError::AdsOnly => 60,
            ProtocolError::TooManySearchTerms => 61,
            ProtocolError::NoFreeSlots => 62,
            ProtocolError::IgnoreListTooLong => 64,
            ProtocolError::ChannelTitleTooLong => 67,
            ProtocolError::TooManySearchResults => 72,
            ProtocolError::InternalError => -1,
            ProtocolError::CommandError => -2,
            ProtocolError::Unimplemented => -3,
            ProtocolError::LoginTimeOut => -4,
            ProtocolError::UnknownError => -5,
            ProtocolError::FrontpageDice => -10,
            ProtocolError::Other => 9999,
        }
    }

    /// The error of a number: the one whose number it is, `Other` for any
    /// number that has no name.
    pub open spec fn of_code(number: int) -> ProtocolError {
        if number == 0 {
            ProtocolError::Success
        } else if number == 1 {
            ProtocolError::SyntaxError
        } else if number == 2 {
            ProtocolError::FullServer
        } else if number == 3 {
            ProtocolError::Unauthenticated
        } else if number == 4 {
            ProtocolError::AuthenticationFailed
        } else if number == 5 {
            ProtocolError::MessageCooldown
        } else if number == 6 {
            ProtocolError::NoSuchCharacter
        } else if number == 7 {
            ProtocolError::ProfileCooldown
        } else if number == 8 {
            ProtocolError::UnknownCommand
        } else if number == 9 {
            ProtocolError::Banned
        } else if number == 10 {
            ProtocolError::AdminRequired
        } else if number == 11 {
            ProtocolError::AlreadyIdentified
        } else if number == 13 {
            ProtocolError::KinkCooldown
        } else if number == 15 {
            ProtocolError::MessageTooLong
        } else if number == 16 {
            ProtocolError::AlreadyModerator
        } else if number == 17 {
            ProtocolError::NotAModerator
        } else if number == 18 {
            ProtocolError::NoResults
        } else if number == 19 {
            ProtocolError::ModeratorRequired
        } else if number == 20 {
            ProtocolError::Ignored
        } else if number == 21 {
            ProtocolError::InvalidTarget
        } else if number == 26 {
            ProtocolError::NoSuchChannel
        } else if number == 28 {
            ProtocolError::AlreadyInChannel
        } else if number == 30 {
            ProtocolError::TooManySessions
        } else if number == 31 {
            ProtocolError::AnotherConnection
        } else if number == 32 {
            ProtocolError::AlreadyBanned
        } else if number == 33 {
            ProtocolError::InvalidAuthentication
        } else if number == 36 {
            ProtocolError::RollError
        } else if number == 38 {
            ProtocolError::InvalidTimeoutDuration
        } else if number == 39 {
            ProtocolError::TimeOut
        } else if number == 40 {
            ProtocolError::Kick
        } else if number == 41 {
            ProtocolError::AlreadyChannelBanned
        } else if number == 42 {
            ProtocolError::NotChannelBanned
        } else if number == 44 {
            ProtocolError::ChannelInviteRequired
        } else if number == 45 {
            ProtocolError::ChannelJoinRequired
        } else if number == 47 {
            ProtocolError::ChannelInviteForbidden
        } else if number == 48 {
            ProtocolError::ChannelBanned
        } else if number == 49 {
            ProtocolError::CharacterNotInChannel
        } else if number == 50 {
            ProtocolError::SearchCooldown
        } else if number == 54 {
            ProtocolError::ReportCooldown
        } else if number == 56 {
            ProtocolError::AdCooldown
        } else if number == 59 {
            ProtocolError::MessageOnly
        } else if number == 60 {
            ProtocolError::AdsOnly
        } else if number == 61 {
            ProtocolError::TooManySearchTerms
        } else if number == 62 {
            ProtocolError::NoFreeSlots
        } else if number == 64 {
            ProtocolError::IgnoreListTooLong
        } else if number == 67 {
            ProtocolError::ChannelTitleTooLong
        } else if number == 72 {
            ProtocolError::TooManySearchResults
        } else if number == -1 {
            ProtocolError::InternalError
        } else if number == -2 {
            ProtocolError::CommandError
        } else if number == -3 {
            ProtocolError::Unimplemented
        } else if number == -4 {
            ProtocolError::LoginTimeOut
        } else if number == -5 {
            ProtocolError::UnknownError
        } else if number == -10 {
            ProtocolError::FrontpageDice
        } else {
            ProtocolError::Other
        }
    }

    /// Whether a connection that the server closes right after this error is
    /// closed for good. A client does not reconnect after a fatal error.
    pub open spec fn fatal(self) -> bool {
        self == ProtocolError::FullServer
        || self == ProtocolError::Banned
        || self == ProtocolError::TooManySessions
        || self == ProtocolError::AnotherConnection
        || self == ProtocolError::InvalidAuthentication
        || self == ProtocolError::TimeOut
        || self == ProtocolError::Kick
        || self == ProtocolError::InternalError
    }

    /// Whether the message that comes with this error says more than the
    /// number does.
    pub open spec fn carries_message(self) -> bool {
        self == ProtocolError::Ignored || self == ProtocolError::TimeOut
    }

    /// The number of the error.
    pub fn number(&self) -> (n: i32)
        ensures
            n == self.code(),
    {
        match self {
            ProtocolError::Success => 0,
            ProtocolError::SyntaxError => 1,
            ProtocolError::FullServer => 2,
            ProtocolError::Unauthenticated => 3,
            ProtocolError::AuthenticationFailed => 4,
            ProtocolError::MessageCooldown => 5,
            ProtocolError::NoSuchCharacter => 6,
            ProtocolError::ProfileCooldown => 7,
            ProtocolError::UnknownCommand => 8,
            ProtocolError::Banned => 9,
            ProtocolError::AdminRequired => 10,
            ProtocolError::AlreadyIdentified => 11,
            ProtocolError::KinkCooldown => 13,
            ProtocolError::MessageTooLong => 15,
            ProtocolError::AlreadyModerator => 16,
            ProtocolError::NotAModerator => 17,
            ProtocolError::NoResults => 18,
            ProtocolError::ModeratorRequired => 19,
            ProtocolError::Ignored => 20,
            ProtocolError::InvalidTarget => 21,
            ProtocolError::NoSuchChannel => 26,
            ProtocolError::AlreadyInChannel => 28,
            ProtocolError::TooManySessions => 30,
            ProtocolError::AnotherConnection => 31,
            ProtocolError::AlreadyBanned => 32,
            ProtocolError::InvalidAuthentication => 33,
            ProtocolError::RollError => 36,
            ProtocolError::InvalidTimeoutDuration => 38,
            ProtocolError::TimeOut => 39,
            ProtocolError::Kick => 40,
            ProtocolError::AlreadyChannelBanned => 41,
            ProtocolError::NotChannelBanned => 42,
            ProtocolError::ChannelInviteRequired => 44,
            ProtocolError::ChannelJoinRequired => 45,
            ProtocolError::ChannelInviteForbidden => 47,
            ProtocolError::ChannelBanned => 48,
            ProtocolError::CharacterNotInChannel => 49,
            ProtocolError::SearchCooldown => 50,
            ProtocolError::ReportCooldown => 54,
            ProtocolError::AdCooldown => 56,
            ProtocolError::MessageOnly => 59,
            ProtocolError::AdsOnly => 60,
            ProtocolError::TooManySearchTerms => 61,
            ProtocolError::NoFreeSlots => 62,
            ProtocolError::IgnoreListTooLong => 64,
            ProtocolError::ChannelTitleTooLong => 67,
            ProtocolError::TooManySearchResults => 72,
            ProtocolError::InternalError => -1,
            ProtocolError::CommandError => -2,
            ProtocolError::Unimplemented => -3,
            ProtocolError::LoginTimeOut => -4,
            ProtocolError::UnknownError => -5,
            ProtocolError::FrontpageDice => -10,
            ProtocolError::Other => 9999,
        }
    }

    /// The error of a number.
    pub fn from_number(number: i32) -> (e: ProtocolError)
        ensures
            e == Self::of_code(number as int),
    {
        match number {
            0 => ProtocolError::Success,
            1 => ProtocolError::SyntaxError,
            2 => ProtocolError::FullServer,
            3 => ProtocolError::Unauthenticated,
            4 => ProtocolError::AuthenticationFailed,
            5 => ProtocolError::MessageCooldown,
            6 => ProtocolError::NoSuchCharacter,
            7 => ProtocolError::ProfileCooldown,
            8 => ProtocolError::UnknownCommand,
            9 => ProtocolError::Banned,
            10 => ProtocolError::AdminRequired,
            11 => ProtocolError::AlreadyIdentified,
            13 => ProtocolError::KinkCooldown,
            15 => ProtocolError::MessageTooLong,
            16 => ProtocolError::AlreadyModerator,
            17 => ProtocolError::NotAModerator,
            18 => ProtocolError::NoResults,
            19 => ProtocolError::ModeratorRequired,
            20 => ProtocolError::Ignored,
            21 => ProtocolError::InvalidTarget,
            26 => ProtocolError::NoSuchChannel,
            28 => ProtocolError::AlreadyInChannel,
            30 => ProtocolError::TooManySessions,
            31 => ProtocolError::AnotherConnection,
            32 => ProtocolError::AlreadyBanned,
            33 => ProtocolError::InvalidAuthentication,
            36 => ProtocolError::RollError,
            38 => ProtocolError::InvalidTimeoutDuration,
            39 => ProtocolError::TimeOut,
            40 => ProtocolError::Kick,
            41 => ProtocolError::AlreadyChannelBanned,
            42 => ProtocolError::NotChannelBanned,
            44 => ProtocolError::ChannelInviteRequired,
            45 => ProtocolError::ChannelJoinRequired,
            47 => ProtocolError::ChannelInviteForbidden,
            48 => ProtocolError::ChannelBanned,
            49 => ProtocolError::CharacterNotInChannel,
            50 => ProtocolError::SearchCooldown,
            54 => ProtocolError::ReportCooldown,
            56 => ProtocolError::AdCooldown,
            59 => ProtocolError::MessageOnly,
            60 => ProtocolError::AdsOnly,
            61 => ProtocolError::TooManySearchTerms,
            62 => ProtocolError::NoFreeSlots,
            64 => ProtocolError::IgnoreListTooLong,
            67 => ProtocolError::ChannelTitleTooLong,
            72 => ProtocolError::TooManySearchResults,
            -1 => ProtocolError::InternalError,
            -2 => ProtocolError::CommandError,
            -3 => ProtocolError::Unimplemented,
            -4 => ProtocolError::LoginTimeOut,
            -5 => ProtocolError::UnknownError,
            -10 => ProtocolError::FrontpageDice,
            _ => ProtocolError::Other,
        }
    }

    /// Whether the error forbids a reconnect: the codes 2, 9, 30, 31, 33, 39
    /// and 40, and the internal error.
    pub fn is_fatal(&self) -> (r: bool)
        ensures
            r == self.fatal(),
            r == (self.code() == 2 || self.code() == 9 || self.code() == 30 || self.code() == 31
                || self.code() == 33 || self.code() == 39 || self.code() == 40 || self.code()
                == -1),
    {
        match self {
            ProtocolError::FullServer
            | ProtocolError::Banned
            | ProtocolError::TooManySessions
            | ProtocolError::AnotherConnection
            | ProtocolError::InvalidAuthentication
            | ProtocolError::TimeOut
            | ProtocolError::Kick
            | ProtocolError::InternalError => true,
            _ => false,
        }
    }

    /// Whether the message of the error matters: the codes 20 and 39.
    pub fn has_message(&self) -> (r: bool)
        ensures
            r == self.carries_message(),
            r == (self.code() == 20 || self.code() == 39),
    {
        match self {
            ProtocolError::Ignored | ProtocolError::TimeOut => true,
            _ => false,
        }
    }

    /// Every error is the error of its own number.
    pub proof fn lemma_code_round_trip(self)
        ensures
            Self::of_code(self.code()) == self,
    {
    }
}

impl From<i32> for ProtocolError {
    fn from(number: i32) -> (e: ProtocolError) {
        ProtocolError::from_number(number)
    }
}

impl FromSpecImpl<i32> for ProtocolError {
    open spec fn obeys_from_spec() -> bool {
        true
    }

    open spec fn from_spec(number: i32) -> ProtocolError {
        ProtocolError::of_code(number as int)
    }
}

} // verus!
