//! Failure taxonomy of the acquisition pipeline.
//!
//! All failures are request-local and surface to the user as short,
//! fixed strings; internal detail is never shown verbatim.

use vstd::prelude::*;

verus! {

/// What went wrong while serving one request.
#[derive(Clone, Copy, PartialEq, Eq, Structural, Debug)]
pub enum Error {
    /// Network or authentication failure at the source provider.
    ProviderUnavailable,
    /// A selection id was absent from the search-result cache
    /// (expired by a sweep, or never issued).
    StaleReference,
    /// The tagging/remux step failed.
    ProcessingFailure,
    /// The transport reported that the delivery edit did not apply.
    DeliveryRejected,
}

impl Error {
    /// The short, fixed, user-facing message for this failure.
    pub fn user_message(&self) -> (r: &'static str)
        ensures
            *self == Error::ProviderUnavailable ==> r@ == "Сервис недоступен"@,
            *self == Error::StaleReference ==> r@ == "Устаревшее сообщение"@,
            *self == Error::ProcessingFailure ==> r@ == "Не удалось скачать трек"@,
            *self == Error::DeliveryRejected ==> r@ == "Не удалось скачать трек"@,
    {
        match self {
            Error::ProviderUnavailable => "Сервис недоступен",
            Error::StaleReference => "Устаревшее сообщение",
            Error::ProcessingFailure => "Не удалось скачать трек",
            Error::DeliveryRejected => "Не удалось скачать трек",
        }
    }
}

} // verus!
