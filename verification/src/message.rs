//! The human-readable texts the link flow renders. Each state transition
//! rewrites one editable message; this module fixes those texts, so that
//! what the user reads is part of the contract. No text ever embeds the
//! credential itself: a [`Render`] value does not carry it.

use vstd::prelude::*;
use crate::flow::Render;
use crate::text::{dec_digits, u64_to_string};

verus! {

/// One rendered message: a title, a body, and an optional footer line.
#[derive(Debug, Clone, PartialEq)]
pub struct MessageContent {
    pub title: String,
    pub description: String,
    pub footer: Option<String>,
}

/// The text of a render, exactly.
///
/// The success footer names the verified username; the rate-limit text
/// embeds the resume time as seconds since the epoch, in the platform's
/// relative-timestamp markup; the connection text carries the transport
/// diagnostic; the unclassified-status text surfaces the raw code.
pub fn message_for(render: &Render) -> (m: MessageContent)
    ensures
        render is Welcome ==> m.title@ == "Welcome to Brainzbot"@ && m.description@
            == "Here's how to link your account to Brainzbot!\nMake sure you already logged into ListenBrainz, and visit the [User Settings](https://listenbrainz.org/settings/)\nFrom here, you can copy the user token and provide the token by clicking the button below"@
            && m.footer is None,
        render is NoTokenProvided ==> m.title@ == "Failed"@ && m.description@
            == "No token was provided. Please run `/login` again"@ && m.footer is None,
        render is VerifyingToken ==> m.title@ == "Verifying token"@ && m.description@
            == "Please wait while we verifying your token"@ && m.footer is None,
        render matches Render::Success { username } ==> m.title@ == "Success"@ && m.description@
            == "You have successfully logged into ListenBrainz"@ && (m.footer matches Some(f) && f@
            == "Username: "@ + username@),
        render is InvalidToken ==> m.title@ == "Failed"@ && m.description@
            == "Please make sure you entered the correct token and run `/login` again"@
            && m.footer is None,
        render matches Render::RateLimitCountdown { resume_at } ==> m.title@ == "Failed"@
            && m.description@ == "Too fast! Please try again <t:"@ + dec_digits(resume_at as nat)
            + ":R>"@ && m.footer is None,
        render matches Render::ConnectionFailed { detail } ==> m.title@ == "Failed"@
            && m.description@ == "Something is wrong with the connection: "@ + detail@
            && m.footer is None,
        render is UnknownFailure ==> m.title@ == "Failed"@ && m.description@
            == "Something unknown error occured"@ && m.footer is None,
        render matches Render::UnexpectedStatus { code } ==> m.title@ == "Failed"@
            && m.description@ == "The service answered with status "@ + dec_digits(code as nat)
            && m.footer is None,
        render is StoreFailed ==> m.title@ == "Failed"@ && m.description@
            == "Your token was verified but could not be saved. Please run `/login` again"@
            && m.footer is None,
{
    match render {
        Render::Welcome => MessageContent {
            title: String::from_str("Welcome to Brainzbot"),
            description: String::from_str(
                "Here's how to link your account to Brainzbot!\nMake sure you already logged into ListenBrainz, and visit the [User Settings](https://listenbrainz.org/settings/)\nFrom here, you can copy the user token and provide the token by clicking the button below",
            ),
            footer: None,
        },
        Render::NoTokenProvided => MessageContent {
            title: String::from_str("Failed"),
            description: String::from_str("No token was provided. Please run `/login` again"),
            footer: None,
        },
        Render::VerifyingToken => MessageContent {
            title: String::from_str("Verifying token"),
            description: String::from_str("Please wait while we verifying your token"),
            footer: None,
        },
        Render::Success { username } => {
            let mut footer = String::from_str("Username: ");
            footer.append(username.as_str());
            MessageContent {
                title: String::from_str("Success"),
                description: String::from_str("You have successfully logged into ListenBrainz"),
                footer: Some(footer),
            }
        },
        Render::InvalidToken => MessageContent {
            title: String::from_str("Failed"),
            description: String::from_str(
                "Please make sure you entered the correct token and run `/login` again",
            ),
            footer: None,
        },
        Render::RateLimitCountdown { resume_at } => {
            let mut description = String::from_str("Too fast! Please try again <t:");
            let digits = u64_to_string(*resume_at);
            description.append(digits.as_str());
            description.append(":R>");
            MessageContent { title: String::from_str("Failed"), description, footer: None }
        },
        Render::ConnectionFailed { detail } => {
            let mut description = String::from_str("Something is wrong with the connection: ");
            description.append(detail.as_str());
            MessageContent { title: String::from_str("Failed"), description, footer: None }
        },
        Render::UnknownFailure => MessageContent {
            title: String::from_str("Failed"),
            description: String::from_str("Something unknown error occured"),
            footer: None,
        },
        Render::UnexpectedStatus { code } => {
            let mut description = String::from_str("The service answered with status ");
            let digits = u64_to_string(*code as u64);
            description.append(digits.as_str());
            MessageContent { title: String::from_str("Failed"), description, footer: None }
        },
        Render::StoreFailed => MessageContent {
            title: String::from_str("Failed"),
            description: String::from_str(
                "Your token was verified but could not be saved. Please run `/login` again",
            ),
            footer: None,
        },
    }
}

} // verus!
