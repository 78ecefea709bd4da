//! Errors of the application, and the machine-readable codes that cross the IPC boundary.
//!
//! The separation is deliberate: [`EgressError::display_text`] carries the
//! details and is meant for logs, while [`EgressError::public_message`] is a
//! safe text for the user. Only the [`ErrorCode`], the safe message and, for
//! validation errors, the name of the rejected contract field leave the core.

use vstd::prelude::*;

verus! {

/// Machine-readable error code that crosses the IPC boundary.
#[derive(Debug, Clone, Copy, PartialEq, Eq, Structural)]
pub enum ErrorCode {
    /// Input failed validation at the boundary of the application.
    Validation,
    /// The requested entity does not exist.
    NotFound,
    /// Local storage is unavailable or the operation could not be performed.
    StorageUnavailable,
    /// The application state directory is unavailable.
    StateDirUnavailable,
    /// The port of a proxy listener is taken or unavailable.
    PortUnavailable,
    /// The feature is unavailable on this platform.
    PlatformFeatureUnavailable,
    /// Internal error whose details are not disclosed to the client.
    Internal,
}

impl ErrorCode {
    /// Text of the code, as used by the IPC contract and the logs.
    pub open spec fn spec_text(self) -> Seq<char> {
        match self {
            ErrorCode::Validation => "validation"@,
            ErrorCode::NotFound => "not_found"@,
            ErrorCode::StorageUnavailable => "storage_unavailable"@,
            ErrorCode::StateDirUnavailable => "state_dir_unavailable"@,
            ErrorCode::PortUnavailable => "port_unavailable"@,
            ErrorCode::PlatformFeatureUnavailable => "platform_feature_unavailable"@,
            ErrorCode::Internal => "internal"@,
        }
    }

    /// Text of the code for the IPC contract and the logs.
    pub fn as_str(self) -> (text: &'static str)
        ensures
            text@ == self.spec_text(),
    {
        match self {
            ErrorCode::Validation => "validation",
            ErrorCode::NotFound => "not_found",
            ErrorCode::StorageUnavailable => "storage_unavailable",
            ErrorCode::StateDirUnavailable => "state_dir_unavailable",
            ErrorCode::PortUnavailable => "port_unavailable",
            ErrorCode::PlatformFeatureUnavailable => "platform_feature_unavailable",
            ErrorCode::Internal => "internal",
        }
    }
}

/// Error of the application.
///
/// Causes that come from outside the core (an I/O or database failure) are
/// carried as their text, which only [`EgressError::display_text`] shows.
#[derive(Debug)]
pub enum EgressError {
    /// The input failed validation. The field names the call contract, not the value.
    Validation {
        /// Name of the contract field.
        field: &'static str,
        /// Reason of the rejection.
        reason: &'static str,
    },
    /// The entity was not found.
    NotFound {
        /// Name of the entity: profile, rule and so on.
        entity: &'static str,
    },
    /// A storage operation failed.
    Storage {
        /// Text of the underlying storage failure.
        source: String,
    },
    /// The port of a proxy listener is taken or unavailable.
    PortUnavailable {
        /// Text of the underlying operating system error.
        source: String,
    },
    /// The feature is unavailable on this platform.
    PlatformFeatureUnavailable {
        /// Name of the feature: tray, autostart and so on.
        feature: &'static str,
    },
    /// The application state directory could not be prepared.
    StateDirUnavailable {
        /// Text of the underlying file system error.
        source: String,
    },
    /// Unexpected internal failure.
    Internal {
        /// Text of the underlying cause.
        source: String,
    },
}

/// The code that belongs to an error.
pub open spec fn code_of(error: EgressError) -> ErrorCode {
    match error {
        EgressError::Validation { .. } => ErrorCode::Validation,
        EgressError::NotFound { .. } => ErrorCode::NotFound,
        EgressError::Storage { .. } => ErrorCode::StorageUnavailable,
        EgressError::StateDirUnavailable { .. } => ErrorCode::StateDirUnavailable,
        EgressError::PortUnavailable { .. } => ErrorCode::PortUnavailable,
        EgressError::PlatformFeatureUnavailable { .. } => ErrorCode::PlatformFeatureUnavailable,
        EgressError::Internal { .. } => ErrorCode::Internal,
    }
}

/// `error` is a storage error whose cause reads `text`.
pub open spec fn is_storage(error: EgressError, text: Seq<char>) -> bool {
    error matches EgressError::Storage { source } && source@ == text
}

/// The message that is safe to show to the user, for each kind of error.
pub open spec fn public_message_of(error: EgressError) -> Seq<char> {
    match error {
        EgressError::Validation { .. } => "Запрос содержит недопустимые данные."@,
        EgressError::NotFound { .. } => "Запрошенный объект не найден."@,
        EgressError::Storage { .. } => "Не удалось обратиться к локальному хранилищу."@,
        EgressError::StateDirUnavailable { .. } => "Не удалось подготовить каталог состояния приложения."@,
        EgressError::PortUnavailable { .. } => "Не удалось занять порт для proxy."@,
        EgressError::PlatformFeatureUnavailable { .. } => "Эта возможность недоступна на текущей платформе."@,
        EgressError::Internal { .. } => "Внутренняя ошибка приложения."@,
    }
}

/// The detailed text of an error, meant for the logs.
pub open spec fn display_text_of(error: EgressError) -> Seq<char> {
    match error {
        EgressError::Validation { field, reason } => "field `"@ + field@ + "` is invalid: "@ + reason@,
        EgressError::NotFound { entity } => "`"@ + entity@ + "` was not found"@,
        EgressError::Storage { source } => "storage failure: "@ + source@,
        EgressError::PortUnavailable { source } => "proxy port is unavailable: "@ + source@,
        EgressError::PlatformFeatureUnavailable { feature } => "platform feature `"@ + feature@ + "` is unavailable"@,
        EgressError::StateDirUnavailable { source } => "state directory is unavailable: "@ + source@,
        EgressError::Internal { source } => "internal failure: "@ + source@,
    }
}

/// The message shown to the user depends on the code of the error alone: no
/// field name, path, query or other detail of the cause ever reaches it.
pub proof fn lemma_public_message_depends_only_on_code(first: EgressError, second: EgressError)
    requires
        code_of(first) == code_of(second),
    ensures
        public_message_of(first) == public_message_of(second),
{
}

impl EgressError {
    /// Creates a validation error of a contract field.
    pub fn validation(field: &'static str, reason: &'static str) -> (error: Self)
        ensures
            error == (EgressError::Validation { field, reason }),
    {
        EgressError::Validation { field, reason }
    }

    /// Creates an error for a missing entity.
    pub fn not_found(entity: &'static str) -> (error: Self)
        ensures
            error == (EgressError::NotFound { entity }),
    {
        EgressError::NotFound { entity }
    }

    /// Creates a storage error from the text of its cause.
    pub fn storage(source: String) -> (error: Self)
        ensures
            error == (EgressError::Storage { source }),
    {
        EgressError::Storage { source }
    }

    /// Creates a storage error from a message.
    ///
    /// Used where the underlying error carries no useful detail, for example when
    /// data read from the database is invalid.
    pub fn storage_message(message: &str) -> (error: Self)
        ensures
            is_storage(error, message@),
    {
        EgressError::Storage { source: message.to_owned() }
    }

    /// Creates an error for a feature that is unavailable on this platform.
    pub fn platform_feature_unavailable(feature: &'static str) -> (error: Self)
        ensures
            error == (EgressError::PlatformFeatureUnavailable { feature }),
    {
        EgressError::PlatformFeatureUnavailable { feature }
    }

    /// Creates an internal error from the text of its cause.
    pub fn internal(source: String) -> (error: Self)
        ensures
            error == (EgressError::Internal { source }),
    {
        EgressError::Internal { source }
    }

    /// Code of the error for the IPC contract.
    pub fn code(&self) -> (code: ErrorCode)
        ensures
            code == code_of(*self),
    {
        match self {
            EgressError::Validation { .. } => ErrorCode::Validation,
            EgressError::NotFound { .. } => ErrorCode::NotFound,
            EgressError::Storage { .. } => ErrorCode::StorageUnavailable,
            EgressError::StateDirUnavailable { .. } => ErrorCode::StateDirUnavailable,
            EgressError::PortUnavailable { .. } => ErrorCode::PortUnavailable,
            EgressError::PlatformFeatureUnavailable { .. } => ErrorCode::PlatformFeatureUnavailable,
            EgressError::Internal { .. } => ErrorCode::Internal,
        }
    }

    /// Name of the contract field for validation errors.
    ///
    /// This is the only structured detail that reaches the UI: the field name is
    /// no secret, and the value entered by the user is not passed on.
    pub fn invalid_field(&self) -> (field: Option<&'static str>)
        ensures
            match *self {
                EgressError::Validation { field: f, .. } => field == Some(f),
                _ => field is None,
            },
    {
        match self {
            EgressError::Validation { field, .. } => Some(*field),
            _ => None,
        }
    }

    /// Message that is safe to show to the user.
    ///
    /// The text holds no paths, file names, SQL or implementation details: the
    /// specifics stay in the logs, which get [`EgressError::display_text`].
    pub fn public_message(&self) -> (message: &'static str)
        ensures
            message@ == public_message_of(*self),
    {
        match self {
            EgressError::Validation { .. } => "Запрос содержит недопустимые данные.",
            EgressError::NotFound { .. } => "Запрошенный объект не найден.",
            EgressError::Storage { .. } => "Не удалось обратиться к локальному хранилищу.",
            EgressError::StateDirUnavailable { .. } => "Не удалось подготовить каталог состояния приложения.",
            EgressError::PortUnavailable { .. } => "Не удалось занять порт для proxy.",
            EgressError::PlatformFeatureUnavailable { .. } => "Эта возможность недоступна на текущей платформе.",
            EgressError::Internal { .. } => "Внутренняя ошибка приложения.",
        }
    }

    /// Detailed text of the error for the logs, including the underlying cause.
    pub fn display_text(&self) -> (text: String)
        ensures
            text@ == display_text_of(*self),
    {
        match self {
            EgressError::Validation { field, reason } => {
                String::from_str("field `").concat(*field).concat("` is invalid: ").concat(*reason)
            },
            EgressError::NotFound { entity } => {
                String::from_str("`").concat(*entity).concat("` was not found")
            },
            EgressError::Storage { source } => {
                String::from_str("storage failure: ").concat(source.as_str())
            },
            EgressError::PortUnavailable { source } => {
                String::from_str("proxy port is unavailable: ").concat(source.as_str())
            },
            EgressError::PlatformFeatureUnavailable { feature } => {
                String::from_str("platform feature `").concat(*feature).concat("` is unavailable")
            },
            EgressError::StateDirUnavailable { source } => {
                String::from_str("state directory is unavailable: ").concat(source.as_str())
            },
            EgressError::Internal { source } => {
                String::from_str("internal failure: ").concat(source.as_str())
            },
        }
    }
}

} // verus!
