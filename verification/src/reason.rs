use vstd::prelude::*;

verus! {

/// Why a request was refused (or that it succeeded), as the universe answers clients.
#[derive(Clone, Copy, Debug, PartialEq, Eq, Structural)]
pub enum ReasonCode {
    Success,
    NoSuchCitizen,
    NoSuchActingCitizen,
    ActingPasswordInvalid,
    InvalidPassword,
    CitizenDisabled,
    IdentityAlreadyInUse,
    NameAlreadyUsed,
    NameTooShort,
    NameEndsWithBlank,
    NameContainsInvalidBlank,
    NameContainsNonalphanumericChar,
    Unauthorized,
    DatabaseError,
    NumberAlreadyUsed,
    UnableToInsertCitizen,
    UnableToChangeCitizen,
    UnableToDeleteCitizen,
    NotLoggedIn,
    ContactAddBlocked,
    UnableToSetContact,
    TelegramBlocked,
    UnableToSendTelegram,
    UnableToGetTelegram,
    JoinRefused,
    ImmigrationNotAllowed,
    PasswordTooLong,
    PasswordTooShort,
    NoSuchEjection,
    NoSuchLicense,
    WorldAlreadyExists,
    UnableToInsertName,
    NoSuchWorld,
    NoSuchCav,
}

} // verus!
