//! The logical-key translation table: the backend's logical key
//! representation and its rename into the normalized [`Key`] model.

use vstd::prelude::*;

verus! {

/// The meaning (mapped value) of a keypress: either the composed text a
/// printable key produced, or a named non-printing key. Exactly one
/// variant describes each raw input; raw values outside the table map
/// to `Unidentified`, never to a panic.
#[derive(Clone, Debug, PartialEq, Eq, Hash)]
pub enum Key {
    Character(String),
    Unidentified,
    Dead,
    Alt,
    AltGraph,
    CapsLock,
    Control,
    Fn,
    FnLock,
    NumLock,
    ScrollLock,
    Shift,
    Symbol,
    SymbolLock,
    Hyper,
    Super,
    Enter,
    Tab,
    ArrowDown,
    ArrowLeft,
    ArrowRight,
    ArrowUp,
    End,
    Home,
    PageDown,
    PageUp,
    Backspace,
    Clear,
    Copy,
    CrSel,
    Cut,
    Delete,
    EraseEof,
    ExSel,
    Insert,
    Paste,
    Redo,
    Undo,
    Accept,
    Again,
    Attn,
    Cancel,
    ContextMenu,
    Escape,
    Execute,
    Find,
    Help,
    Pause,
    Play,
    Props,
    Select,
    ZoomIn,
    ZoomOut,
    BrightnessDown,
    BrightnessUp,
    Eject,
    LogOff,
    Power,
    PowerOff,
    PrintScreen,
    Hibernate,
    Standby,
    WakeUp,
    AllCandidates,
    Alphanumeric,
    CodeInput,
    Compose,
    Convert,
    FinalMode,
    GroupFirst,
    GroupLast,
    GroupNext,
    GroupPrevious,
    ModeChange,
    NextCandidate,
    NonConvert,
    PreviousCandidate,
    Process,
    SingleCandidate,
    HangulMode,
    HanjaMode,
    JunjaMode,
    Eisu,
    Hankaku,
    Hiragana,
    HiraganaKatakana,
    KanaMode,
    KanjiMode,
    Katakana,
    Romaji,
    Zenkaku,
    ZenkakuHankaku,
    Soft1,
    Soft2,
    Soft3,
    Soft4,
    ChannelDown,
    ChannelUp,
    Close,
    MailForward,
    MailReply,
    MailSend,
    MediaClose,
    MediaFastForward,
    MediaPause,
    MediaPlay,
    MediaPlayPause,
    MediaRecord,
    MediaRewind,
    MediaStop,
    MediaTrackNext,
    MediaTrackPrevious,
    New,
    Open,
    Print,
    Save,
    SpellCheck,
    Key11,
    Key12,
    AudioBalanceLeft,
    AudioBalanceRight,
    AudioBassBoostDown,
    AudioBassBoostToggle,
    AudioBassBoostUp,
    AudioFaderFront,
    AudioFaderRear,
    AudioSurroundModeNext,
    AudioTrebleDown,
    AudioTrebleUp,
    AudioVolumeDown,
    AudioVolumeUp,
    AudioVolumeMute,
    MicrophoneToggle,
    MicrophoneVolumeDown,
    MicrophoneVolumeUp,
    MicrophoneVolumeMute,
    SpeechCorrectionList,
    SpeechInputToggle,
    LaunchApplication1,
    LaunchApplication2,
    LaunchCalendar,
    LaunchContacts,
    LaunchMail,
    LaunchMediaPlayer,
    LaunchMusicPlayer,
    LaunchPhone,
    LaunchScreenSaver,
    LaunchSpreadsheet,
    LaunchWebBrowser,
    LaunchWebCam,
    LaunchWordProcessor,
    BrowserBack,
    BrowserFavorites,
    BrowserForward,
    BrowserHome,
    BrowserRefresh,
    BrowserSearch,
    BrowserStop,
    AppSwitch,
    Call,
    Camera,
    CameraFocus,
    EndCall,
    GoBack,
    GoHome,
    HeadsetHook,
    LastNumberRedial,
    Notification,
    MannerMode,
    VoiceDial,
    TV,
    TV3DMode,
    TVAntennaCable,
    TVAudioDescription,
    TVAudioDescriptionMixDown,
    TVAudioDescriptionMixUp,
    TVContentsMenu,
    TVDataService,
    TVInput,
    TVInputComponent1,
    TVInputComponent2,
    TVInputComposite1,
    TVInputComposite2,
    TVInputHDMI1,
    TVInputHDMI2,
    TVInputHDMI3,
    TVInputHDMI4,
    TVInputVGA1,
    TVMediaContext,
    TVNetwork,
    TVNumberEntry,
    TVPower,
    TVRadioService,
    TVSatellite,
    TVSatelliteBS,
    TVSatelliteCS,
    TVSatelliteToggle,
    TVTerrestrialAnalog,
    TVTerrestrialDigital,
    TVTimer,
    AVRInput,
    AVRPower,
    ColorF0Red,
    ColorF1Green,
    ColorF2Yellow,
    ColorF3Blue,
    ColorF4Grey,
    ColorF5Brown,
    ClosedCaptionToggle,
    Dimmer,
    DisplaySwap,
    DVR,
    Exit,
    FavoriteClear0,
    FavoriteClear1,
    FavoriteClear2,
    FavoriteClear3,
    FavoriteRecall0,
    FavoriteRecall1,
    FavoriteRecall2,
    FavoriteRecall3,
    FavoriteStore0,
    FavoriteStore1,
    FavoriteStore2,
    FavoriteStore3,
    Guide,
    GuideNextDay,
    GuidePreviousDay,
    Info,
    InstantReplay,
    Link,
    ListProgram,
    LiveContent,
    Lock,
    MediaApps,
    MediaAudioTrack,
    MediaLast,
    MediaSkipBackward,
    MediaSkipForward,
    MediaStepBackward,
    MediaStepForward,
    MediaTopMenu,
    NavigateIn,
    NavigateNext,
    NavigateOut,
    NavigatePrevious,
    NextFavoriteChannel,
    NextUserProfile,
    OnDemand,
    Pairing,
    PinPDown,
    PinPMove,
    PinPToggle,
    PinPUp,
    PlaySpeedDown,
    PlaySpeedReset,
    PlaySpeedUp,
    RandomToggle,
    RcLowBattery,
    RecordSpeedNext,
    RfBypass,
    ScanChannelsToggle,
    ScreenModeNext,
    Settings,
    SplitScreenToggle,
    STBInput,
    STBPower,
    Subtitle,
    Teletext,
    VideoModeNext,
    Wink,
    ZoomToggle,
    F1,
    F2,
    F3,
    F4,
    F5,
    F6,
    F7,
    F8,
    F9,
    F10,
    F11,
    F12,
    Meta,
}

/// A logical key as the windowing backend reports it: already composed
/// text, a dead key, or one of the backend's named keys. This is the
/// "logical-key style" raw representation; translation into [`Key`] is
/// a direct one-to-one rename.
#[derive(Clone, Debug, PartialEq, Eq, Hash)]
pub enum RawKey {
    Character(String),
    Unidentified,
    Dead,
    Alt,
    AltGraph,
    CapsLock,
    Control,
    Fn,
    FnLock,
    NumLock,
    ScrollLock,
    Shift,
    Symbol,
    SymbolLock,
    Hyper,
    Super,
    Enter,
    Tab,
    Space,
    ArrowDown,
    ArrowLeft,
    ArrowRight,
    ArrowUp,
    End,
    Home,
    PageDown,
    PageUp,
    Backspace,
    Clear,
    Copy,
    CrSel,
    Cut,
    Delete,
    EraseEof,
    ExSel,
    Insert,
    Paste,
    Redo,
    Undo,
    Accept,
    Again,
    Attn,
    Cancel,
    ContextMenu,
    Escape,
    Execute,
    Find,
    Help,
    Pause,
    Play,
    Props,
    Select,
    ZoomIn,
    ZoomOut,
    BrightnessDown,
    BrightnessUp,
    Eject,
    LogOff,
    Power,
    PowerOff,
    PrintScreen,
    Hibernate,
    Standby,
    WakeUp,
    AllCandidates,
    Alphanumeric,
    CodeInput,
    Compose,
    Convert,
    FinalMode,
    GroupFirst,
    GroupLast,
    GroupNext,
    GroupPrevious,
    ModeChange,
    NextCandidate,
    NonConvert,
    PreviousCandidate,
    Process,
    SingleCandidate,
    HangulMode,
    HanjaMode,
    JunjaMode,
    Eisu,
    Hankaku,
    Hiragana,
    HiraganaKatakana,
    KanaMode,
    KanjiMode,
    Katakana,
    Romaji,
    Zenkaku,
    ZenkakuHankaku,
    Soft1,
    Soft2,
    Soft3,
    Soft4,
    ChannelDown,
    ChannelUp,
    Close,
    MailForward,
    MailReply,
    MailSend,
    MediaClose,
    MediaFastForward,
    MediaPause,
    MediaPlay,
    MediaPlayPause,
    MediaRecord,
    MediaRewind,
    MediaStop,
    MediaTrackNext,
    MediaTrackPrevious,
    New,
    Open,
    Print,
    Save,
    SpellCheck,
    Key11,
    Key12,
    AudioBalanceLeft,
    AudioBalanceRight,
    AudioBassBoostDown,
    AudioBassBoostToggle,
    AudioBassBoostUp,
    AudioFaderFront,
    AudioFaderRear,
    AudioSurroundModeNext,
    AudioTrebleDown,
    AudioTrebleUp,
    AudioVolumeDown,
    AudioVolumeUp,
    AudioVolumeMute,
    MicrophoneToggle,
    MicrophoneVolumeDown,
    MicrophoneVolumeUp,
    MicrophoneVolumeMute,
    SpeechCorrectionList,
    SpeechInputToggle,
    LaunchApplication1,
    LaunchApplication2,
    LaunchCalendar,
    LaunchContacts,
    LaunchMail,
    LaunchMediaPlayer,
    LaunchMusicPlayer,
    LaunchPhone,
    LaunchScreenSaver,
    LaunchSpreadsheet,
    LaunchWebBrowser,
    LaunchWebCam,
    LaunchWordProcessor,
    BrowserBack,
    BrowserFavorites,
    BrowserForward,
    BrowserHome,
    BrowserRefresh,
    BrowserSearch,
    BrowserStop,
    AppSwitch,
    Call,
    Camera,
    CameraFocus,
    EndCall,
    GoBack,
    GoHome,
    HeadsetHook,
    LastNumberRedial,
    Notification,
    MannerMode,
    VoiceDial,
    TV,
    TV3DMode,
    TVAntennaCable,
    TVAudioDescription,
    TVAudioDescriptionMixDown,
    TVAudioDescriptionMixUp,
    TVContentsMenu,
    TVDataService,
    TVInput,
    TVInputComponent1,
    TVInputComponent2,
    TVInputComposite1,
    TVInputComposite2,
    TVInputHDMI1,
    TVInputHDMI2,
    TVInputHDMI3,
    TVInputHDMI4,
    TVInputVGA1,
    TVMediaContext,
    TVNetwork,
    TVNumberEntry,
    TVPower,
    TVRadioService,
    TVSatellite,
    TVSatelliteBS,
    TVSatelliteCS,
    TVSatelliteToggle,
    TVTerrestrialAnalog,
    TVTerrestrialDigital,
    TVTimer,
    AVRInput,
    AVRPower,
    ColorF0Red,
    ColorF1Green,
    ColorF2Yellow,
    ColorF3Blue,
    ColorF4Grey,
    ColorF5Brown,
    ClosedCaptionToggle,
    Dimmer,
    DisplaySwap,
    DVR,
    Exit,
    FavoriteClear0,
    FavoriteClear1,
    FavoriteClear2,
    FavoriteClear3,
    FavoriteRecall0,
    FavoriteRecall1,
    FavoriteRecall2,
    FavoriteRecall3,
    FavoriteStore0,
    FavoriteStore1,
    FavoriteStore2,
    FavoriteStore3,
    Guide,
    GuideNextDay,
    GuidePreviousDay,
    Info,
    InstantReplay,
    Link,
    ListProgram,
    LiveContent,
    Lock,
    MediaApps,
    MediaAudioTrack,
    MediaLast,
    MediaSkipBackward,
    MediaSkipForward,
    MediaStepBackward,
    MediaStepForward,
    MediaTopMenu,
    NavigateIn,
    NavigateNext,
    NavigateOut,
    NavigatePrevious,
    NextFavoriteChannel,
    NextUserProfile,
    OnDemand,
    Pairing,
    PinPDown,
    PinPMove,
    PinPToggle,
    PinPUp,
    PlaySpeedDown,
    PlaySpeedReset,
    PlaySpeedUp,
    RandomToggle,
    RcLowBattery,
    RecordSpeedNext,
    RfBypass,
    ScanChannelsToggle,
    ScreenModeNext,
    Settings,
    SplitScreenToggle,
    STBInput,
    STBPower,
    Subtitle,
    Teletext,
    VideoModeNext,
    Wink,
    ZoomToggle,
    F1,
    F2,
    F3,
    F4,
    F5,
    F6,
    F7,
    F8,
    F9,
    F10,
    F11,
    F12,
    F13,
    F14,
    F15,
    F16,
    F17,
    F18,
    F19,
    F20,
    F21,
    F22,
    F23,
    F24,
    F25,
    F26,
    F27,
    F28,
    F29,
    F30,
    F31,
    F32,
    F33,
    F34,
    F35,
}

/// True when `k` is the composed text consisting of the one character
/// `c`.
pub open spec fn is_character(k: Key, c: char) -> bool {
    match k {
        Key::Character(s) => s@ == seq![c],
        _ => false,
    }
}

/// Key values compared by what they mean: composed text by its
/// characters, named keys by their variant.
pub open spec fn key_view_eq(a: Key, b: Key) -> bool {
    match (a, b) {
        (Key::Character(s), Key::Character(t)) => s@ == t@,
        _ => a == b,
    }
}

/// The translation table relating a raw logical key to the normalized
/// `Key` it renames to. Composed text passes through unchanged, the
/// space key becomes the one-character text `" "`, the backend's
/// function keys past `F12` are outside the normalized model and
/// degrade to `Unidentified`, and every other named key renames
/// one-to-one.
pub open spec fn key_corresponds(raw: RawKey, k: Key) -> bool {
    match raw {
        RawKey::Character(s) => k == Key::Character(s),
        RawKey::Unidentified => k == Key::Unidentified,
        RawKey::Dead => k == Key::Dead,
        RawKey::Alt => k == Key::Alt,
        RawKey::AltGraph => k == Key::AltGraph,
        RawKey::CapsLock => k == Key::CapsLock,
        RawKey::Control => k == Key::Control,
        RawKey::Fn => k == Key::Fn,
        RawKey::FnLock => k == Key::FnLock,
        RawKey::NumLock => k == Key::NumLock,
        RawKey::ScrollLock => k == Key::ScrollLock,
        RawKey::Shift => k == Key::Shift,
        RawKey::Symbol => k == Key::Symbol,
        RawKey::SymbolLock => k == Key::SymbolLock,
        RawKey::Hyper => k == Key::Hyper,
        RawKey::Super => k == Key::Super,
        RawKey::Enter => k == Key::Enter,
        RawKey::Tab => k == Key::Tab,
        RawKey::Space => is_character(k, ' '),
        RawKey::ArrowDown => k == Key::ArrowDown,
        RawKey::ArrowLeft => k == Key::ArrowLeft,
        RawKey::ArrowRight => k == Key::ArrowRight,
        RawKey::ArrowUp => k == Key::ArrowUp,
        RawKey::End => k == Key::End,
        RawKey::Home => k == Key::Home,
        RawKey::PageDown => k == Key::PageDown,
        RawKey::PageUp => k == Key::PageUp,
        RawKey::Backspace => k == Key::Backspace,
        RawKey::Clear => k == Key::Clear,
        RawKey::Copy => k == Key::Copy,
        RawKey::CrSel => k == Key::CrSel,
        RawKey::Cut => k == Key::Cut,
        RawKey::Delete => k == Key::Delete,
        RawKey::EraseEof => k == Key::EraseEof,
        RawKey::ExSel => k == Key::ExSel,
        RawKey::Insert => k == Key::Insert,
        RawKey::Paste => k == Key::Paste,
        RawKey::Redo => k == Key::Redo,
        RawKey::Undo => k == Key::Undo,
        RawKey::Accept => k == Key::Accept,
        RawKey::Again => k == Key::Again,
        RawKey::Attn => k == Key::Attn,
        RawKey::Cancel => k == Key::Cancel,
        RawKey::ContextMenu => k == Key::ContextMenu,
        RawKey::Escape => k == Key::Escape,
        RawKey::Execute => k == Key::Execute,
        RawKey::Find => k == Key::Find,
        RawKey::Help => k == Key::Help,
        RawKey::Pause => k == Key::Pause,
        RawKey::Play => k == Key::Play,
        RawKey::Props => k == Key::Props,
        RawKey::Select => k == Key::Select,
        RawKey::ZoomIn => k == Key::ZoomIn,
        RawKey::ZoomOut => k == Key::ZoomOut,
        RawKey::BrightnessDown => k == Key::BrightnessDown,
        RawKey::BrightnessUp => k == Key::BrightnessUp,
        RawKey::Eject => k == Key::Eject,
        RawKey::LogOff => k == Key::LogOff,
        RawKey::Power => k == Key::Power,
        RawKey::PowerOff => k == Key::PowerOff,
        RawKey::PrintScreen => k == Key::PrintScreen,
        RawKey::Hibernate => k == Key::Hibernate,
        RawKey::Standby => k == Key::Standby,
        RawKey::WakeUp => k == Key::WakeUp,
        RawKey::AllCandidates => k == Key::AllCandidates,
        RawKey::Alphanumeric => k == Key::Alphanumeric,
        RawKey::CodeInput => k == Key::CodeInput,
        RawKey::Compose => k == Key::Compose,
        RawKey::Convert => k == Key::Convert,
        RawKey::FinalMode => k == Key::FinalMode,
        RawKey::GroupFirst => k == Key::GroupFirst,
        RawKey::GroupLast => k == Key::GroupLast,
        RawKey::GroupNext => k == Key::GroupNext,
        RawKey::GroupPrevious => k == Key::GroupPrevious,
        RawKey::ModeChange => k == Key::ModeChange,
        RawKey::NextCandidate => k == Key::NextCandidate,
        RawKey::NonConvert => k == Key::NonConvert,
        RawKey::PreviousCandidate => k == Key::PreviousCandidate,
        RawKey::Process => k == Key::Process,
        RawKey::SingleCandidate => k == Key::SingleCandidate,
        RawKey::HangulMode => k == Key::HangulMode,
        RawKey::HanjaMode => k == Key::HanjaMode,
        RawKey::JunjaMode => k == Key::JunjaMode,
        RawKey::Eisu => k == Key::Eisu,
        RawKey::Hankaku => k == Key::Hankaku,
        RawKey::Hiragana => k == Key::Hiragana,
        RawKey::HiraganaKatakana => k == Key::HiraganaKatakana,
        RawKey::KanaMode => k == Key::KanaMode,
        RawKey::KanjiMode => k == Key::KanjiMode,
        RawKey::Katakana => k == Key::Katakana,
        RawKey::Romaji => k == Key::Romaji,
        RawKey::Zenkaku => k == Key::Zenkaku,
        RawKey::ZenkakuHankaku => k == Key::ZenkakuHankaku,
        RawKey::Soft1 => k == Key::Soft1,
        RawKey::Soft2 => k == Key::Soft2,
        RawKey::Soft3 => k == Key::Soft3,
        RawKey::Soft4 => k == Key::Soft4,
        RawKey::ChannelDown => k == Key::ChannelDown,
        RawKey::ChannelUp => k == Key::ChannelUp,
        RawKey::Close => k == Key::Close,
        RawKey::MailForward => k == Key::MailForward,
        RawKey::MailReply => k == Key::MailReply,
        RawKey::MailSend => k == Key::MailSend,
        RawKey::MediaClose => k == Key::MediaClose,
        RawKey::MediaFastForward => k == Key::MediaFastForward,
        RawKey::MediaPause => k == Key::MediaPause,
        RawKey::MediaPlay => k == Key::MediaPlay,
        RawKey::MediaPlayPause => k == Key::MediaPlayPause,
        RawKey::MediaRecord => k == Key::MediaRecord,
        RawKey::MediaRewind => k == Key::MediaRewind,
        RawKey::MediaStop => k == Key::MediaStop,
        RawKey::MediaTrackNext => k == Key::MediaTrackNext,
        RawKey::MediaTrackPrevious => k == Key::MediaTrackPrevious,
        RawKey::New => k == Key::New,
        RawKey::Open => k == Key::Open,
        RawKey::Print => k == Key::Print,
        RawKey::Save => k == Key::Save,
        RawKey::SpellCheck => k == Key::SpellCheck,
        RawKey::Key11 => k == Key::Key11,
        RawKey::Key12 => k == Key::Key12,
        RawKey::AudioBalanceLeft => k == Key::AudioBalanceLeft,
        RawKey::AudioBalanceRight => k == Key::AudioBalanceRight,
        RawKey::AudioBassBoostDown => k == Key::AudioBassBoostDown,
        RawKey::AudioBassBoostToggle => k == Key::AudioBassBoostToggle,
        RawKey::AudioBassBoostUp => k == Key::AudioBassBoostUp,
        RawKey::AudioFaderFront => k == Key::AudioFaderFront,
        RawKey::AudioFaderRear => k == Key::AudioFaderRear,
        RawKey::AudioSurroundModeNext => k == Key::AudioSurroundModeNext,
        RawKey::AudioTrebleDown => k == Key::AudioTrebleDown,
        RawKey::AudioTrebleUp => k == Key::AudioTrebleUp,
        RawKey::AudioVolumeDown => k == Key::AudioVolumeDown,
        RawKey::AudioVolumeUp => k == Key::AudioVolumeUp,
        RawKey::AudioVolumeMute => k == Key::AudioVolumeMute,
        RawKey::MicrophoneToggle => k == Key::MicrophoneToggle,
        RawKey::MicrophoneVolumeDown => k == Key::MicrophoneVolumeDown,
        RawKey::MicrophoneVolumeUp => k == Key::MicrophoneVolumeUp,
        RawKey::MicrophoneVolumeMute => k == Key::MicrophoneVolumeMute,
        RawKey::SpeechCorrectionList => k == Key::SpeechCorrectionList,
        RawKey::SpeechInputToggle => k == Key::SpeechInputToggle,
        RawKey::LaunchApplication1 => k == Key::LaunchApplication1,
        RawKey::LaunchApplication2 => k == Key::LaunchApplication2,
        RawKey::LaunchCalendar => k == Key::LaunchCalendar,
        RawKey::LaunchContacts => k == Key::LaunchContacts,
        RawKey::LaunchMail => k == Key::LaunchMail,
        RawKey::LaunchMediaPlayer => k == Key::LaunchMediaPlayer,
        RawKey::LaunchMusicPlayer => k == Key::LaunchMusicPlayer,
        RawKey::LaunchPhone => k == Key::LaunchPhone,
        RawKey::LaunchScreenSaver => k == Key::LaunchScreenSaver,
        RawKey::LaunchSpreadsheet => k == Key::LaunchSpreadsheet,
        RawKey::LaunchWebBrowser => k == Key::LaunchWebBrowser,
        RawKey::LaunchWebCam => k == Key::LaunchWebCam,
        RawKey::LaunchWordProcessor => k == Key::LaunchWordProcessor,
        RawKey::BrowserBack => k == Key::BrowserBack,
        RawKey::BrowserFavorites => k == Key::BrowserFavorites,
        RawKey::BrowserForward => k == Key::BrowserForward,
        RawKey::BrowserHome => k == Key::BrowserHome,
        RawKey::BrowserRefresh => k == Key::BrowserRefresh,
        RawKey::BrowserSearch => k == Key::BrowserSearch,
        RawKey::BrowserStop => k == Key::BrowserStop,
        RawKey::AppSwitch => k == Key::AppSwitch,
        RawKey::Call => k == Key::Call,
        RawKey::Camera => k == Key::Camera,
        RawKey::CameraFocus => k == Key::CameraFocus,
        RawKey::EndCall => k == Key::EndCall,
        RawKey::GoBack => k == Key::GoBack,
        RawKey::GoHome => k == Key::GoHome,
        RawKey::HeadsetHook => k == Key::HeadsetHook,
        RawKey::LastNumberRedial => k == Key::LastNumberRedial,
        RawKey::Notification => k == Key::Notification,
        RawKey::MannerMode => k == Key::MannerMode,
        RawKey::VoiceDial => k == Key::VoiceDial,
        RawKey::TV => k == Key::TV,
        RawKey::TV3DMode => k == Key::TV3DMode,
        RawKey::TVAntennaCable => k == Key::TVAntennaCable,
        RawKey::TVAudioDescription => k == Key::TVAudioDescription,
        RawKey::TVAudioDescriptionMixDown => k == Key::TVAudioDescriptionMixDown,
        RawKey::TVAudioDescriptionMixUp => k == Key::TVAudioDescriptionMixUp,
        RawKey::TVContentsMenu => k == Key::TVContentsMenu,
        RawKey::TVDataService => k == Key::TVDataService,
        RawKey::TVInput => k == Key::TVInput,
        RawKey::TVInputComponent1 => k == Key::TVInputComponent1,
        RawKey::TVInputComponent2 => k == Key::TVInputComponent2,
        RawKey::TVInputComposite1 => k == Key::TVInputComposite1,
        RawKey::TVInputComposite2 => k == Key::TVInputComposite2,
        RawKey::TVInputHDMI1 => k == Key::TVInputHDMI1,
        RawKey::TVInputHDMI2 => k == Key::TVInputHDMI2,
        RawKey::TVInputHDMI3 => k == Key::TVInputHDMI3,
        RawKey::TVInputHDMI4 => k == Key::TVInputHDMI4,
        RawKey::TVInputVGA1 => k == Key::TVInputVGA1,
        RawKey::TVMediaContext => k == Key::TVMediaContext,
        RawKey::TVNetwork => k == Key::TVNetwork,
        RawKey::TVNumberEntry => k == Key::TVNumberEntry,
        RawKey::TVPower => k == Key::TVPower,
        RawKey::TVRadioService => k == Key::TVRadioService,
        RawKey::TVSatellite => k == Key::TVSatellite,
        RawKey::TVSatelliteBS => k == Key::TVSatelliteBS,
        RawKey::TVSatelliteCS => k == Key::TVSatelliteCS,
        RawKey::TVSatelliteToggle => k == Key::TVSatelliteToggle,
        RawKey::TVTerrestrialAnalog => k == Key::TVTerrestrialAnalog,
        RawKey::TVTerrestrialDigital => k == Key::TVTerrestrialDigital,
        RawKey::TVTimer => k == Key::TVTimer,
        RawKey::AVRInput => k == Key::AVRInput,
        RawKey::AVRPower => k == Key::AVRPower,
        RawKey::ColorF0Red => k == Key::ColorF0Red,
        RawKey::ColorF1Green => k == Key::ColorF1Green,
        RawKey::ColorF2Yellow => k == Key::ColorF2Yellow,
        RawKey::ColorF3Blue => k == Key::ColorF3Blue,
        RawKey::ColorF4Grey => k == Key::ColorF4Grey,
        RawKey::ColorF5Brown => k == Key::ColorF5Brown,
        RawKey::ClosedCaptionToggle => k == Key::ClosedCaptionToggle,
        RawKey::Dimmer => k == Key::Dimmer,
        RawKey::DisplaySwap => k == Key::DisplaySwap,
        RawKey::DVR => k == Key::DVR,
        RawKey::Exit => k == Key::Exit,
        RawKey::FavoriteClear0 => k == Key::FavoriteClear0,
        RawKey::FavoriteClear1 => k == Key::FavoriteClear1,
        RawKey::FavoriteClear2 => k == Key::FavoriteClear2,
        RawKey::FavoriteClear3 => k == Key::FavoriteClear3,
        RawKey::FavoriteRecall0 => k == Key::FavoriteRecall0,
        RawKey::FavoriteRecall1 => k == Key::FavoriteRecall1,
        RawKey::FavoriteRecall2 => k == Key::FavoriteRecall2,
        RawKey::FavoriteRecall3 => k == Key::FavoriteRecall3,
        RawKey::FavoriteStore0 => k == Key::FavoriteStore0,
        RawKey::FavoriteStore1 => k == Key::FavoriteStore1,
        RawKey::FavoriteStore2 => k == Key::FavoriteStore2,
        RawKey::FavoriteStore3 => k == Key::FavoriteStore3,
        RawKey::Guide => k == Key::Guide,
        RawKey::GuideNextDay => k == Key::GuideNextDay,
        RawKey::GuidePreviousDay => k == Key::GuidePreviousDay,
        RawKey::Info => k == Key::Info,
        RawKey::InstantReplay => k == Key::InstantReplay,
        RawKey::Link => k == Key::Link,
        RawKey::ListProgram => k == Key::ListProgram,
        RawKey::LiveContent => k == Key::LiveContent,
        RawKey::Lock => k == Key::Lock,
        RawKey::MediaApps => k == Key::MediaApps,
        RawKey::MediaAudioTrack => k == Key::MediaAudioTrack,
        RawKey::MediaLast => k == Key::MediaLast,
        RawKey::MediaSkipBackward => k == Key::MediaSkipBackward,
        RawKey::MediaSkipForward => k == Key::MediaSkipForward,
        RawKey::MediaStepBackward => k == Key::MediaStepBackward,
        RawKey::MediaStepForward => k == Key::MediaStepForward,
        RawKey::MediaTopMenu => k == Key::MediaTopMenu,
        RawKey::NavigateIn => k == Key::NavigateIn,
        RawKey::NavigateNext => k == Key::NavigateNext,
        RawKey::NavigateOut => k == Key::NavigateOut,
        RawKey::NavigatePrevious => k == Key::NavigatePrevious,
        RawKey::NextFavoriteChannel => k == Key::NextFavoriteChannel,
        RawKey::NextUserProfile => k == Key::NextUserProfile,
        RawKey::OnDemand => k == Key::OnDemand,
        RawKey::Pairing => k == Key::Pairing,
        RawKey::PinPDown => k == Key::PinPDown,
        RawKey::PinPMove => k == Key::PinPMove,
        RawKey::PinPToggle => k == Key::PinPToggle,
        RawKey::PinPUp => k == Key::PinPUp,
        RawKey::PlaySpeedDown => k == Key::PlaySpeedDown,
        RawKey::PlaySpeedReset => k == Key::PlaySpeedReset,
        RawKey::PlaySpeedUp => k == Key::PlaySpeedUp,
        RawKey::RandomToggle => k == Key::RandomToggle,
        RawKey::RcLowBattery => k == Key::RcLowBattery,
        RawKey::RecordSpeedNext => k == Key::RecordSpeedNext,
        RawKey::RfBypass => k == Key::RfBypass,
        RawKey::ScanChannelsToggle => k == Key::ScanChannelsToggle,
        RawKey::ScreenModeNext => k == Key::ScreenModeNext,
        RawKey::Settings => k == Key::Settings,
        RawKey::SplitScreenToggle => k == Key::SplitScreenToggle,
        RawKey::STBInput => k == Key::STBInput,
        RawKey::STBPower => k == Key::STBPower,
        RawKey::Subtitle => k == Key::Subtitle,
        RawKey::Teletext => k == Key::Teletext,
        RawKey::VideoModeNext => k == Key::VideoModeNext,
        RawKey::Wink => k == Key::Wink,
        RawKey::ZoomToggle => k == Key::ZoomToggle,
        RawKey::F1 => k == Key::F1,
        RawKey::F2 => k == Key::F2,
        RawKey::F3 => k == Key::F3,
        RawKey::F4 => k == Key::F4,
        RawKey::F5 => k == Key::F5,
        RawKey::F6 => k == Key::F6,
        RawKey::F7 => k == Key::F7,
        RawKey::F8 => k == Key::F8,
        RawKey::F9 => k == Key::F9,
        RawKey::F10 => k == Key::F10,
        RawKey::F11 => k == Key::F11,
        RawKey::F12 => k == Key::F12,
        RawKey::F13 => k == Key::Unidentified,
        RawKey::F14 => k == Key::Unidentified,
        RawKey::F15 => k == Key::Unidentified,
        RawKey::F16 => k == Key::Unidentified,
        RawKey::F17 => k == Key::Unidentified,
        RawKey::F18 => k == Key::Unidentified,
        RawKey::F19 => k == Key::Unidentified,
        RawKey::F20 => k == Key::Unidentified,
        RawKey::F21 => k == Key::Unidentified,
        RawKey::F22 => k == Key::Unidentified,
        RawKey::F23 => k == Key::Unidentified,
        RawKey::F24 => k == Key::Unidentified,
        RawKey::F25 => k == Key::Unidentified,
        RawKey::F26 => k == Key::Unidentified,
        RawKey::F27 => k == Key::Unidentified,
        RawKey::F28 => k == Key::Unidentified,
        RawKey::F29 => k == Key::Unidentified,
        RawKey::F30 => k == Key::Unidentified,
        RawKey::F31 => k == Key::Unidentified,
        RawKey::F32 => k == Key::Unidentified,
        RawKey::F33 => k == Key::Unidentified,
        RawKey::F34 => k == Key::Unidentified,
        RawKey::F35 => k == Key::Unidentified,
    }
}

/// Relies on `char::to_string`: the returned `String` holds exactly the
/// one character given, nothing else.
#[verifier::external_body]
fn char_to_string(c: char) -> (s: String)
    ensures
        s@ == seq![c],
{
    c.to_string()
}

/// The key meaning one composed character: `Key::Character` holding
/// exactly that character.
pub fn char_key(c: char) -> (k: Key)
    ensures
        is_character(k, c),
{
    Key::Character(char_to_string(c))
}

/// Translate a raw logical key into the normalized `Key`. Total: every
/// raw value yields exactly one `Key`, with unmapped raw values
/// degrading to `Key::Unidentified`.
pub fn winit_key(input: RawKey) -> (k: Key)
    ensures
        key_corresponds(input, k),
{
    match input {
        RawKey::Character(s) => Key::Character(s),
        RawKey::Unidentified => Key::Unidentified,
        RawKey::Dead => Key::Dead,
        RawKey::Alt => Key::Alt,
        RawKey::AltGraph => Key::AltGraph,
        RawKey::CapsLock => Key::CapsLock,
        RawKey::Control => Key::Control,
        RawKey::Fn => Key::Fn,
        RawKey::FnLock => Key::FnLock,
        RawKey::NumLock => Key::NumLock,
        RawKey::ScrollLock => Key::ScrollLock,
        RawKey::Shift => Key::Shift,
        RawKey::Symbol => Key::Symbol,
        RawKey::SymbolLock => Key::SymbolLock,
        RawKey::Hyper => Key::Hyper,
        RawKey::Super => Key::Super,
        RawKey::Enter => Key::Enter,
        RawKey::Tab => Key::Tab,
        RawKey::Space => Key::Character(char_to_string(' ')),
        RawKey::ArrowDown => Key::ArrowDown,
        RawKey::ArrowLeft => Key::ArrowLeft,
        RawKey::ArrowRight => Key::ArrowRight,
        RawKey::ArrowUp => Key::ArrowUp,
        RawKey::End => Key::End,
        RawKey::Home => Key::Home,
        RawKey::PageDown => Key::PageDown,
        RawKey::PageUp => Key::PageUp,
        RawKey::Backspace => Key::Backspace,
        RawKey::Clear => Key::Clear,
        RawKey::Copy => Key::Copy,
        RawKey::CrSel => Key::CrSel,
        RawKey::Cut => Key::Cut,
        RawKey::Delete => Key::Delete,
        RawKey::EraseEof => Key::EraseEof,
        RawKey::ExSel => Key::ExSel,
        RawKey::Insert => Key::Insert,
        RawKey::Paste => Key::Paste,
        RawKey::Redo => Key::Redo,
        RawKey::Undo => Key::Undo,
        RawKey::Accept => Key::Accept,
        RawKey::Again => Key::Again,
        RawKey::Attn => Key::Attn,
        RawKey::Cancel => Key::Cancel,
        RawKey::ContextMenu => Key::ContextMenu,
        RawKey::Escape => Key::Escape,
        RawKey::Execute => Key::Execute,
        RawKey::Find => Key::Find,
        RawKey::Help => Key::Help,
        RawKey::Pause => Key::Pause,
        RawKey::Play => Key::Play,
        RawKey::Props => Key::Props,
        RawKey::Select => Key::Select,
        RawKey::ZoomIn => Key::ZoomIn,
        RawKey::ZoomOut => Key::ZoomOut,
        RawKey::BrightnessDown => Key::BrightnessDown,
        RawKey::BrightnessUp => Key::BrightnessUp,
        RawKey::Eject => Key::Eject,
        RawKey::LogOff => Key::LogOff,
        RawKey::Power => Key::Power,
        RawKey::PowerOff => Key::PowerOff,
        RawKey::PrintScreen => Key::PrintScreen,
        RawKey::Hibernate => Key::Hibernate,
        RawKey::Standby => Key::Standby,
        RawKey::WakeUp => Key::WakeUp,
        RawKey::AllCandidates => Key::AllCandidates,
        RawKey::Alphanumeric => Key::Alphanumeric,
        RawKey::CodeInput => Key::CodeInput,
        RawKey::Compose => Key::Compose,
        RawKey::Convert => Key::Convert,
        RawKey::FinalMode => Key::FinalMode,
        RawKey::GroupFirst => Key::GroupFirst,
        RawKey::GroupLast => Key::GroupLast,
        RawKey::GroupNext => Key::GroupNext,
        RawKey::GroupPrevious => Key::GroupPrevious,
        RawKey::ModeChange => Key::ModeChange,
        RawKey::NextCandidate => Key::NextCandidate,
        RawKey::NonConvert => Key::NonConvert,
        RawKey::PreviousCandidate => Key::PreviousCandidate,
        RawKey::Process => Key::Process,
        RawKey::SingleCandidate => Key::SingleCandidate,
        RawKey::HangulMode => Key::HangulMode,
        RawKey::HanjaMode => Key::HanjaMode,
        RawKey::JunjaMode => Key::JunjaMode,
        RawKey::Eisu => Key::Eisu,
        RawKey::Hankaku => Key::Hankaku,
        RawKey::Hiragana => Key::Hiragana,
        RawKey::HiraganaKatakana => Key::HiraganaKatakana,
        RawKey::KanaMode => Key::KanaMode,
        RawKey::KanjiMode => Key::KanjiMode,
        RawKey::Katakana => Key::Katakana,
        RawKey::Romaji => Key::Romaji,
        RawKey::Zenkaku => Key::Zenkaku,
        RawKey::ZenkakuHankaku => Key::ZenkakuHankaku,
        RawKey::Soft1 => Key::Soft1,
        RawKey::Soft2 => Key::Soft2,
        RawKey::Soft3 => Key::Soft3,
        RawKey::Soft4 => Key::Soft4,
        RawKey::ChannelDown => Key::ChannelDown,
        RawKey::ChannelUp => Key::ChannelUp,
        RawKey::Close => Key::Close,
        RawKey::MailForward => Key::MailForward,
        RawKey::MailReply => Key::MailReply,
        RawKey::MailSend => Key::MailSend,
        RawKey::MediaClose => Key::MediaClose,
        RawKey::MediaFastForward => Key::MediaFastForward,
        RawKey::MediaPause => Key::MediaPause,
        RawKey::MediaPlay => Key::MediaPlay,
        RawKey::MediaPlayPause => Key::MediaPlayPause,
        RawKey::MediaRecord => Key::MediaRecord,
        RawKey::MediaRewind => Key::MediaRewind,
        RawKey::MediaStop => Key::MediaStop,
        RawKey::MediaTrackNext => Key::MediaTrackNext,
        RawKey::MediaTrackPrevious => Key::MediaTrackPrevious,
        RawKey::New => Key::New,
        RawKey::Open => Key::Open,
        RawKey::Print => Key::Print,
        RawKey::Save => Key::Save,
        RawKey::SpellCheck => Key::SpellCheck,
        RawKey::Key11 => Key::Key11,
        RawKey::Key12 => Key::Key12,
        RawKey::AudioBalanceLeft => Key::AudioBalanceLeft,
        RawKey::AudioBalanceRight => Key::AudioBalanceRight,
        RawKey::AudioBassBoostDown => Key::AudioBassBoostDown,
        RawKey::AudioBassBoostToggle => Key::AudioBassBoostToggle,
        RawKey::AudioBassBoostUp => Key::AudioBassBoostUp,
        RawKey::AudioFaderFront => Key::AudioFaderFront,
        RawKey::AudioFaderRear => Key::AudioFaderRear,
        RawKey::AudioSurroundModeNext => Key::AudioSurroundModeNext,
        RawKey::AudioTrebleDown => Key::AudioTrebleDown,
        RawKey::AudioTrebleUp => Key::AudioTrebleUp,
        RawKey::AudioVolumeDown => Key::AudioVolumeDown,
        RawKey::AudioVolumeUp => Key::AudioVolumeUp,
        RawKey::AudioVolumeMute => Key::AudioVolumeMute,
        RawKey::MicrophoneToggle => Key::MicrophoneToggle,
        RawKey::MicrophoneVolumeDown => Key::MicrophoneVolumeDown,
        RawKey::MicrophoneVolumeUp => Key::MicrophoneVolumeUp,
        RawKey::MicrophoneVolumeMute => Key::MicrophoneVolumeMute,
        RawKey::SpeechCorrectionList => Key::SpeechCorrectionList,
        RawKey::SpeechInputToggle => Key::SpeechInputToggle,
        RawKey::LaunchApplication1 => Key::LaunchApplication1,
        RawKey::LaunchApplication2 => Key::LaunchApplication2,
        RawKey::LaunchCalendar => Key::LaunchCalendar,
        RawKey::LaunchContacts => Key::LaunchContacts,
        RawKey::LaunchMail => Key::LaunchMail,
        RawKey::LaunchMediaPlayer => Key::LaunchMediaPlayer,
        RawKey::LaunchMusicPlayer => Key::LaunchMusicPlayer,
        RawKey::LaunchPhone => Key::LaunchPhone,
        RawKey::LaunchScreenSaver => Key::LaunchScreenSaver,
        RawKey::LaunchSpreadsheet => Key::LaunchSpreadsheet,
        RawKey::LaunchWebBrowser => Key::LaunchWebBrowser,
        RawKey::LaunchWebCam => Key::LaunchWebCam,
        RawKey::LaunchWordProcessor => Key::LaunchWordProcessor,
        RawKey::BrowserBack => Key::BrowserBack,
        RawKey::BrowserFavorites => Key::BrowserFavorites,
        RawKey::BrowserForward => Key::BrowserForward,
        RawKey::BrowserHome => Key::BrowserHome,
        RawKey::BrowserRefresh => Key::BrowserRefresh,
        RawKey::BrowserSearch => Key::BrowserSearch,
        RawKey::BrowserStop => Key::BrowserStop,
        RawKey::AppSwitch => Key::AppSwitch,
        RawKey::Call => Key::Call,
        RawKey::Camera => Key::Camera,
        RawKey::CameraFocus => Key::CameraFocus,
        RawKey::EndCall => Key::EndCall,
        RawKey::GoBack => Key::GoBack,
        RawKey::GoHome => Key::GoHome,
        RawKey::HeadsetHook => Key::HeadsetHook,
        RawKey::LastNumberRedial => Key::LastNumberRedial,
        RawKey::Notification => Key::Notification,
        RawKey::MannerMode => Key::MannerMode,
        RawKey::VoiceDial => Key::VoiceDial,
        RawKey::TV => Key::TV,
        RawKey::TV3DMode => Key::TV3DMode,
        RawKey::TVAntennaCable => Key::TVAntennaCable,
        RawKey::TVAudioDescription => Key::TVAudioDescription,
        RawKey::TVAudioDescriptionMixDown => Key::TVAudioDescriptionMixDown,
        RawKey::TVAudioDescriptionMixUp => Key::TVAudioDescriptionMixUp,
        RawKey::TVContentsMenu => Key::TVContentsMenu,
        RawKey::TVDataService => Key::TVDataService,
        RawKey::TVInput => Key::TVInput,
        RawKey::TVInputComponent1 => Key::TVInputComponent1,
        RawKey::TVInputComponent2 => Key::TVInputComponent2,
        RawKey::TVInputComposite1 => Key::TVInputComposite1,
        RawKey::TVInputComposite2 => Key::TVInputComposite2,
        RawKey::TVInputHDMI1 => Key::TVInputHDMI1,
        RawKey::TVInputHDMI2 => Key::TVInputHDMI2,
        RawKey::TVInputHDMI3 => Key::TVInputHDMI3,
        RawKey::TVInputHDMI4 => Key::TVInputHDMI4,
        RawKey::TVInputVGA1 => Key::TVInputVGA1,
        RawKey::TVMediaContext => Key::TVMediaContext,
        RawKey::TVNetwork => Key::TVNetwork,
        RawKey::TVNumberEntry => Key::TVNumberEntry,
        RawKey::TVPower => Key::TVPower,
        RawKey::TVRadioService => Key::TVRadioService,
        RawKey::TVSatellite => Key::TVSatellite,
        RawKey::TVSatelliteBS => Key::TVSatelliteBS,
        RawKey::TVSatelliteCS => Key::TVSatelliteCS,
        RawKey::TVSatelliteToggle => Key::TVSatelliteToggle,
        RawKey::TVTerrestrialAnalog => Key::TVTerrestrialAnalog,
        RawKey::TVTerrestrialDigital => Key::TVTerrestrialDigital,
        RawKey::TVTimer => Key::TVTimer,
        RawKey::AVRInput => Key::AVRInput,
        RawKey::AVRPower => Key::AVRPower,
        RawKey::ColorF0Red => Key::ColorF0Red,
        RawKey::ColorF1Green => Key::ColorF1Green,
        RawKey::ColorF2Yellow => Key::ColorF2Yellow,
        RawKey::ColorF3Blue => Key::ColorF3Blue,
        RawKey::ColorF4Grey => Key::ColorF4Grey,
        RawKey::ColorF5Brown => Key::ColorF5Brown,
        RawKey::ClosedCaptionToggle => Key::ClosedCaptionToggle,
        RawKey::Dimmer => Key::Dimmer,
        RawKey::DisplaySwap => Key::DisplaySwap,
        RawKey::DVR => Key::DVR,
        RawKey::Exit => Key::Exit,
        RawKey::FavoriteClear0 => Key::FavoriteClear0,
        RawKey::FavoriteClear1 => Key::FavoriteClear1,
        RawKey::FavoriteClear2 => Key::FavoriteClear2,
        RawKey::FavoriteClear3 => Key::FavoriteClear3,
        RawKey::FavoriteRecall0 => Key::FavoriteRecall0,
        RawKey::FavoriteRecall1 => Key::FavoriteRecall1,
        RawKey::FavoriteRecall2 => Key::FavoriteRecall2,
        RawKey::FavoriteRecall3 => Key::FavoriteRecall3,
        RawKey::FavoriteStore0 => Key::FavoriteStore0,
        RawKey::FavoriteStore1 => Key::FavoriteStore1,
        RawKey::FavoriteStore2 => Key::FavoriteStore2,
        RawKey::FavoriteStore3 => Key::FavoriteStore3,
        RawKey::Guide => Key::Guide,
        RawKey::GuideNextDay => Key::GuideNextDay,
        RawKey::GuidePreviousDay => Key::GuidePreviousDay,
        RawKey::Info => Key::Info,
        RawKey::InstantReplay => Key::InstantReplay,
        RawKey::Link => Key::Link,
        RawKey::ListProgram => Key::ListProgram,
        RawKey::LiveContent => Key::LiveContent,
        RawKey::Lock => Key::Lock,
        RawKey::MediaApps => Key::MediaApps,
        RawKey::MediaAudioTrack => Key::MediaAudioTrack,
        RawKey::MediaLast => Key::MediaLast,
        RawKey::MediaSkipBackward => Key::MediaSkipBackward,
        RawKey::MediaSkipForward => Key::MediaSkipForward,
        RawKey::MediaStepBackward => Key::MediaStepBackward,
        RawKey::MediaStepForward => Key::MediaStepForward,
        RawKey::MediaTopMenu => Key::MediaTopMenu,
        RawKey::NavigateIn => Key::NavigateIn,
        RawKey::NavigateNext => Key::NavigateNext,
        RawKey::NavigateOut => Key::NavigateOut,
        RawKey::NavigatePrevious => Key::NavigatePrevious,
        RawKey::NextFavoriteChannel => Key::NextFavoriteChannel,
        RawKey::NextUserProfile => Key::NextUserProfile,
        RawKey::OnDemand => Key::OnDemand,
        RawKey::Pairing => Key::Pairing,
        RawKey::PinPDown => Key::PinPDown,
        RawKey::PinPMove => Key::PinPMove,
        RawKey::PinPToggle => Key::PinPToggle,
        RawKey::PinPUp => Key::PinPUp,
        RawKey::PlaySpeedDown => Key::PlaySpeedDown,
        RawKey::PlaySpeedReset => Key::PlaySpeedReset,
        RawKey::PlaySpeedUp => Key::PlaySpeedUp,
        RawKey::RandomToggle => Key::RandomToggle,
        RawKey::RcLowBattery => Key::RcLowBattery,
        RawKey::RecordSpeedNext => Key::RecordSpeedNext,
        RawKey::RfBypass => Key::RfBypass,
        RawKey::ScanChannelsToggle => Key::ScanChannelsToggle,
        RawKey::ScreenModeNext => Key::ScreenModeNext,
        RawKey::Settings => Key::Settings,
        RawKey::SplitScreenToggle => Key::SplitScreenToggle,
        RawKey::STBInput => Key::STBInput,
        RawKey::STBPower => Key::STBPower,
        RawKey::Subtitle => Key::Subtitle,
        RawKey::Teletext => Key::Teletext,
        RawKey::VideoModeNext => Key::VideoModeNext,
        RawKey::Wink => Key::Wink,
        RawKey::ZoomToggle => Key::ZoomToggle,
        RawKey::F1 => Key::F1,
        RawKey::F2 => Key::F2,
        RawKey::F3 => Key::F3,
        RawKey::F4 => Key::F4,
        RawKey::F5 => Key::F5,
        RawKey::F6 => Key::F6,
        RawKey::F7 => Key::F7,
        RawKey::F8 => Key::F8,
        RawKey::F9 => Key::F9,
        RawKey::F10 => Key::F10,
        RawKey::F11 => Key::F11,
        RawKey::F12 => Key::F12,
        RawKey::F13 => Key::Unidentified,
        RawKey::F14 => Key::Unidentified,
        RawKey::F15 => Key::Unidentified,
        RawKey::F16 => Key::Unidentified,
        RawKey::F17 => Key::Unidentified,
        RawKey::F18 => Key::Unidentified,
        RawKey::F19 => Key::Unidentified,
        RawKey::F20 => Key::Unidentified,
        RawKey::F21 => Key::Unidentified,
        RawKey::F22 => Key::Unidentified,
        RawKey::F23 => Key::Unidentified,
        RawKey::F24 => Key::Unidentified,
        RawKey::F25 => Key::Unidentified,
        RawKey::F26 => Key::Unidentified,
        RawKey::F27 => Key::Unidentified,
        RawKey::F28 => Key::Unidentified,
        RawKey::F29 => Key::Unidentified,
        RawKey::F30 => Key::Unidentified,
        RawKey::F31 => Key::Unidentified,
        RawKey::F32 => Key::Unidentified,
        RawKey::F33 => Key::Unidentified,
        RawKey::F34 => Key::Unidentified,
        RawKey::F35 => Key::Unidentified,
    }
}

/// Translation is a pure function of the raw key: any two results for
/// the same raw value mean the same key, so translating the same raw
/// event twice yields identical output.
pub proof fn lemma_translation_deterministic(raw: RawKey, k1: Key, k2: Key)
    requires
        key_corresponds(raw, k1),
        key_corresponds(raw, k2),
    ensures
        key_view_eq(k1, k2),
{
}

} // verus!
