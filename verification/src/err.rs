use std::string::FromUtf8Error;
use vstd::prelude::*;

verus! {

/// `std::string::FromUtf8Error`, carried as the payload of
/// [`CyanotypeError::UTF8Error`].
#[verifier::external_type_specification]
#[verifier::external_body]
pub struct ExFromUtf8Error(FromUtf8Error);

/// The errors of the library.
#[derive(Debug, PartialEq, Eq)]
pub enum CyanotypeError {
    NoVideoStream,
    SubtitleError,
    ImageDecodeError,
    TimeMissing,
    /// A packet could not be handed to the subscribers of a stream.
    ChannelSendError,
    UTF8Error(FromUtf8Error),
    /// An error of the media backend, carried as its message.
    FFmpegError(String),
}

impl CyanotypeError {
    /// The text that describes the error.
    pub fn message(&self) -> (text: String)
        ensures
            self is NoVideoStream ==> text@ == "couldn't find a videostream"@,
            self is SubtitleError ==> text@ == "couldn't parse subtitles"@,
            self is ImageDecodeError ==> text@ == "couldn't decode image"@,
            self is TimeMissing ==> text@ == "couldn't get packet time from ffmpeg"@,
            self is ChannelSendError ==> text@ == "couldn't broadcast a packet to a stream"@,
            self matches CyanotypeError::FFmpegError(m) ==> text@ == m@,
            self matches CyanotypeError::UTF8Error(e)
                ==> vstd::string::to_string_from_display_ensures::<FromUtf8Error>(&e, text),
    {
        match self {
            CyanotypeError::NoVideoStream => "couldn't find a videostream".to_owned(),
            CyanotypeError::SubtitleError => "couldn't parse subtitles".to_owned(),
            CyanotypeError::ImageDecodeError => "couldn't decode image".to_owned(),
            CyanotypeError::TimeMissing => "couldn't get packet time from ffmpeg".to_owned(),
            CyanotypeError::ChannelSendError => "couldn't broadcast a packet to a stream".to_owned(),
            CyanotypeError::UTF8Error(e) => e.to_string(),
            CyanotypeError::FFmpegError(m) => m.clone(),
        }
    }
}

} // verus!
