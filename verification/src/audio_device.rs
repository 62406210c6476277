//! Which audio device is used, and what is said where there is none.
use vstd::prelude::*;
use vstd::string::*;

use crate::text::same_text;

verus! {

/// The two directions of audio.
#[derive(Clone, Copy, Debug, PartialEq, Eq, Structural)]
pub enum BidiAudioDeviceKind {
    Microphone,
    Speaker,
}

/// The devices that the configuration names.
#[derive(Debug, PartialEq, Eq)]
pub struct BidiAudioConfig {
    pub microphone: Option<String>,
    pub speaker: Option<String>,
}

/// Names without repetitions, in the order in which each was met first.
pub open spec fn distinct(names: Seq<Option<Seq<char>>>) -> Seq<Seq<char>>
    decreases names.len(),
{
    if names.len() == 0 {
        Seq::empty()
    } else {
        let earlier = distinct(names.drop_last());
        match names.last() {
            Some(name) if !earlier.contains(name) => earlier.push(name),
            _ => earlier,
        }
    }
}

/// Whether a list holds a name.
fn holds(names: &Vec<String>, name: &str) -> (found: bool)
    ensures
        found == names.deep_view().contains(name@),
{
    let mut index: usize = 0;
    while index < names.len()
        invariant
            index <= names@.len(),
            forall|i: int| 0 <= i < index ==> #[trigger] names.deep_view()[i] != name@,
        decreases names@.len() - index,
    {
        if same_text(names[index].as_str(), name) {
            assert(names.deep_view()[index as int] == name@);
            return true;
        }
        assert(names.deep_view()[index as int] != name@);
        index = index + 1;
    }
    false
}

/// The names of devices, each once; a device that gives no name is left out.
pub fn list_bidi_audio_device_names(names: &Vec<Option<String>>) -> (listed: Vec<String>)
    ensures
        listed.deep_view() == distinct(names.deep_view()),
{
    let mut listed: Vec<String> = Vec::new();
    assert(listed.deep_view() =~= Seq::empty());
    let mut index: usize = 0;
    while index < names.len()
        invariant
            index <= names@.len(),
            listed.deep_view() == distinct(names.deep_view().take(index as int)),
        decreases names@.len() - index,
    {
        let ghost earlier = listed.deep_view();
        let ghost next = names.deep_view().take(index + 1);
        assert(next.drop_last() =~= names.deep_view().take(index as int));
        assert(next.last() == names@[index as int].deep_view());
        if let Some(name) = &names[index] {
            if !holds(&listed, name.as_str()) {
                listed.push(name.clone());
                assert(listed.deep_view() =~= earlier.push(name@));
            }
        }
        index = index + 1;
    }
    assert(names.deep_view().take(names@.len() as int) =~= names.deep_view());
    listed
}

/// The device that the configuration names for a direction.
pub open spec fn configured(kind: BidiAudioDeviceKind, config: BidiAudioConfig) -> Option<
    Seq<char>,
> {
    match kind {
        BidiAudioDeviceKind::Microphone => config.microphone.deep_view(),
        BidiAudioDeviceKind::Speaker => config.speaker.deep_view(),
    }
}

/// The device that the configuration names for a direction.
pub fn configured_name<'a>(kind: BidiAudioDeviceKind, config: &'a BidiAudioConfig) -> (name: Option<
    &'a str,
>)
    ensures
        name.deep_view() == configured(kind, *config),
{
    let name = match kind {
        BidiAudioDeviceKind::Microphone => &config.microphone,
        BidiAudioDeviceKind::Speaker => &config.speaker,
    };
    match name {
        Some(text) => Some(text.as_str()),
        None => None,
    }
}

/// The first of a list of devices that has a name.
pub fn find_device_by_name(names: &Vec<Option<String>>, name: &str) -> (position: Option<usize>)
    ensures
        match position {
            Some(found) => found < names@.len() && names.deep_view()[found as int] == Some(name@)
                && forall|i: int|
                0 <= i < found ==> #[trigger] names.deep_view()[i] != Some(name@),
            None => forall|i: int|
                0 <= i < names@.len() ==> #[trigger] names.deep_view()[i] != Some(name@),
        },
{
    let mut index: usize = 0;
    while index < names.len()
        invariant
            index <= names@.len(),
            forall|i: int| 0 <= i < index ==> #[trigger] names.deep_view()[i] != Some(name@),
        decreases names@.len() - index,
    {
        if let Some(candidate) = &names[index] {
            if same_text(candidate.as_str(), name) {
                assert(names.deep_view()[index as int] == Some(name@));
                return Some(index);
            }
        }
        assert(names.deep_view()[index as int] != Some(name@));
        index = index + 1;
    }
    None
}

/// The failure that answers where there is no device.
pub open spec fn missing_device(kind: BidiAudioDeviceKind, configured_name: Option<Seq<char>>) -> Seq<
    char,
> {
    match (kind, configured_name) {
        (BidiAudioDeviceKind::Microphone, Some(name)) => "configured microphone `"@ + name
            + "` was unavailable and no default input audio device was found"@,
        (BidiAudioDeviceKind::Speaker, Some(name)) => "configured speaker `"@ + name
            + "` was unavailable and no default output audio device was found"@,
        (BidiAudioDeviceKind::Microphone, None) => "no input audio device available"@,
        (BidiAudioDeviceKind::Speaker, None) => "no output audio device available"@,
    }
}

/// The failure that answers where there is no device.
pub fn missing_device_error(kind: BidiAudioDeviceKind, configured_name: Option<&str>) -> (message:
    String)
    ensures
        message@ == missing_device(kind, configured_name.deep_view()),
{
    match (kind, configured_name) {
        (BidiAudioDeviceKind::Microphone, Some(name)) => {
            let mut message = "configured microphone `".to_owned();
            message.append(name);
            message.append("` was unavailable and no default input audio device was found");
            message
        },
        (BidiAudioDeviceKind::Speaker, Some(name)) => {
            let mut message = "configured speaker `".to_owned();
            message.append(name);
            message.append("` was unavailable and no default output audio device was found");
            message
        },
        (BidiAudioDeviceKind::Microphone, None) => "no input audio device available".to_owned(),
        (BidiAudioDeviceKind::Speaker, None) => "no output audio device available".to_owned(),
    }
}

/// The device that is used.
#[derive(Clone, Copy, Debug, PartialEq, Eq, Structural)]
pub enum DeviceChoice {
    /// The device at a position of the list.
    Listed(usize),
    /// The default of the system. Where `fell_back` is set, a device was configured that is not
    /// there.
    SystemDefault { fell_back: bool },
}

/// Whether a choice is the right one: the first device with the configured name, else the
/// default of the system, else none.
pub open spec fn is_choice_of(
    choice: Result<DeviceChoice, String>,
    kind: BidiAudioDeviceKind,
    config: BidiAudioConfig,
    names: Seq<Option<Seq<char>>>,
    has_default: bool,
) -> bool {
    let wanted = configured(kind, config);
    let listed = wanted is Some && names.contains(wanted);
    match choice {
        Ok(DeviceChoice::Listed(found)) => listed && found < names.len() && names[found as int]
            == wanted && forall|i: int| 0 <= i < found ==> #[trigger] names[i] != wanted,
        Ok(DeviceChoice::SystemDefault { fell_back }) => !listed && has_default && fell_back == (
        wanted is Some),
        Err(message) => !listed && !has_default && message@ == missing_device(kind, wanted),
    }
}

/// Chooses a device: the configured one where it is there, else the default of the system. The
/// list is empty where it could not be made.
pub fn select_device(
    kind: BidiAudioDeviceKind,
    config: &BidiAudioConfig,
    names: &Vec<Option<String>>,
    has_default: bool,
) -> (choice: Result<DeviceChoice, String>)
    ensures
        is_choice_of(choice, kind, *config, names.deep_view(), has_default),
{
    let wanted = configured_name(kind, config);
    if let Some(name) = wanted {
        if let Some(found) = find_device_by_name(names, name) {
            assert(names.deep_view()[found as int] == Some(name@));
            return Ok(DeviceChoice::Listed(found));
        }
    }
    if has_default {
        return Ok(DeviceChoice::SystemDefault { fell_back: wanted.is_some() });
    }
    Err(missing_device_error(kind, wanted))
}

/// What the system was asked for a direction.
#[derive(Clone, Copy, Debug, PartialEq, Eq, Structural)]
pub enum DeviceRequest {
    Enumerate,
    DefaultConfig,
}

/// The failure of a request to the system.
pub open spec fn device_failure(
    request: DeviceRequest,
    kind: BidiAudioDeviceKind,
    error: Seq<char>,
) -> Seq<char> {
    (match (request, kind) {
        (
            DeviceRequest::Enumerate,
            BidiAudioDeviceKind::Microphone,
        ) => "failed to enumerate input audio devices: "@,
        (
            DeviceRequest::Enumerate,
            BidiAudioDeviceKind::Speaker,
        ) => "failed to enumerate output audio devices: "@,
        (
            DeviceRequest::DefaultConfig,
            BidiAudioDeviceKind::Microphone,
        ) => "failed to get default input config: "@,
        (
            DeviceRequest::DefaultConfig,
            BidiAudioDeviceKind::Speaker,
        ) => "failed to get default output config: "@,
    }) + error
}

/// The failure of a request to the system, for what the system says of it.
pub fn device_error(request: DeviceRequest, kind: BidiAudioDeviceKind, error: &str) -> (message:
    String)
    ensures
        message@ == device_failure(request, kind, error@),
{
    let mut message = match (request, kind) {
        (
            DeviceRequest::Enumerate,
            BidiAudioDeviceKind::Microphone,
        ) => "failed to enumerate input audio devices: ".to_owned(),
        (
            DeviceRequest::Enumerate,
            BidiAudioDeviceKind::Speaker,
        ) => "failed to enumerate output audio devices: ".to_owned(),
        (
            DeviceRequest::DefaultConfig,
            BidiAudioDeviceKind::Microphone,
        ) => "failed to get default input config: ".to_owned(),
        (
            DeviceRequest::DefaultConfig,
            BidiAudioDeviceKind::Speaker,
        ) => "failed to get default output config: ".to_owned(),
    };
    message.append(error);
    message
}

/// A list of distinct names holds each name that was given once, and nothing else.
pub proof fn every_name_is_listed_once(names: Seq<Option<Seq<char>>>)
    ensures
        distinct(names).no_duplicates(),
        forall|name: Seq<char>| #[trigger]
            distinct(names).contains(name) <==> names.contains(Some(name)),
    decreases names.len(),
{
    if names.len() > 0 {
        let earlier = names.drop_last();
        every_name_is_listed_once(earlier);
        assert forall|name: Seq<char>| #[trigger]
            distinct(names).contains(name) <==> names.contains(Some(name)) by {
            if names.contains(Some(name)) {
                let i = choose|i: int| 0 <= i < names.len() && names[i] == Some(name);
                if i < earlier.len() {
                    assert(earlier[i] == Some(name));
                    assert(distinct(earlier).contains(name));
                    let j = choose|j: int| 0 <= j < distinct(earlier).len() && distinct(earlier)[j] == name;
                    assert(distinct(names)[j] == name);
                } else if !distinct(earlier).contains(name) {
                    assert(distinct(names).last() == name);
                } else {
                    let j = choose|j: int| 0 <= j < distinct(earlier).len() && distinct(earlier)[j] == name;
                    assert(distinct(names)[j] == name);
                }
            }
            if distinct(names).contains(name) {
                let j = choose|j: int| 0 <= j < distinct(names).len() && distinct(names)[j] == name;
                if j < distinct(earlier).len() {
                    assert(distinct(earlier)[j] == name);
                    assert(distinct(earlier).contains(name));
                    assert(earlier.contains(Some(name)));
                    let i = choose|i: int| 0 <= i < earlier.len() && earlier[i] == Some(name);
                    assert(names[i] == Some(name));
                } else {
                    assert(names.last() == Some(name));
                }
            }
        }
    } else {
        assert forall|name: Seq<char>| #[trigger]
            distinct(names).contains(name) <==> names.contains(Some(name)) by {}
    }
}

} // verus!
