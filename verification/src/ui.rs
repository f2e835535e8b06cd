//! The user-interface-facing state and its rules: preference and profile
//! validation, tool-server form validation, the tool-call widget's state,
//! and context-drawer pages.  Rendering belongs to the embedding
//! application; the decisions live here.

use vstd::prelude::*;

use crate::text::{spec_contains, contains_sub, str_eq};

verus! {

/// Application preferences shown on the settings page.
pub struct AppPreferences {
    pub theme: usize,
    pub auto_save: bool,
    pub notifications: bool,
    pub auto_scroll: bool,
}

impl Default for AppPreferences {
    /// The system theme, with saving, notifications and scrolling on.
    fn default() -> (r: AppPreferences)
        ensures
            r.theme == 0,
            r.auto_save,
            r.notifications,
            r.auto_scroll,
    {
        AppPreferences { theme: 0, auto_save: true, notifications: true, auto_scroll: true }
    }
}

/// The state of the new-profile form.
pub struct NewProfileState {
    pub name: String,
    pub backend: String,
    pub model: String,
    pub endpoint: String,
    pub api_key: String,
}

impl Default for NewProfileState {
    /// An empty form for an OpenAI-shaped backend.
    fn default() -> (r: NewProfileState)
        ensures
            r.name@ == Seq::<char>::empty(),
            r.backend@ == "openai"@,
            r.model@ == Seq::<char>::empty(),
            r.endpoint@ == Seq::<char>::empty(),
            r.api_key@ == Seq::<char>::empty(),
    {
        NewProfileState {
            name: String::new(),
            backend: String::from_str("openai"),
            model: String::new(),
            endpoint: String::new(),
            api_key: String::new(),
        }
    }
}

/// Which field of the new-profile form is being edited.
#[derive(Clone, Copy, PartialEq, Eq, Structural, Debug)]
pub enum NewProfileField {
    Name,
    Backend,
    Model,
    Endpoint,
    ApiKey,
}

/// Whether a text begins with the given prefix.
pub open spec fn spec_starts_with(s: Seq<char>, prefix: Seq<char>) -> bool {
    s.len() >= prefix.len() && s.subrange(0, prefix.len() as int) == prefix
}

/// Whether a text begins with the given prefix.
pub fn starts_with_str(s: &str, prefix: &str) -> (r: bool)
    ensures
        r == spec_starts_with(s@, prefix@),
{
    let slen = s.unicode_len();
    let plen = prefix.unicode_len();
    if slen < plen {
        return false;
    }
    let head = s.substring_char(0, plen);
    str_eq(head, prefix)
}

/// The app-preferences settings section.
pub struct AppPreferencesSection;

impl AppPreferencesSection {
    /// A fresh section.
    pub fn new() -> (r: AppPreferencesSection) {
        AppPreferencesSection
    }

    /// The display name of a theme index; an unknown index shows as the
    /// system theme.
    pub fn get_theme_name(&self, theme_index: usize) -> (r: &'static str)
        ensures
            theme_index == 0 ==> r@ == "System"@,
            theme_index == 1 ==> r@ == "Dark"@,
            theme_index == 2 ==> r@ == "Light"@,
            theme_index > 2 ==> r@ == "System"@,
    {
        match theme_index {
            0 => "System",
            1 => "Dark",
            2 => "Light",
            _ => "System",
        }
    }

    /// The validation findings for preferences: exactly one message for a
    /// theme index out of range, none otherwise.
    pub fn validate_preferences(&self, preferences: &AppPreferences) -> (r: Vec<String>)
        ensures
            preferences.theme > 2 ==> r@.len() == 1 && r@[0]@ == "Invalid theme selection"@,
            preferences.theme <= 2 ==> r@.len() == 0,
    {
        let mut errors: Vec<String> = Vec::new();
        if preferences.theme > 2 {
            errors.push(String::from_str("Invalid theme selection"));
        }
        errors
    }
}

/// Which findings profile validation reports, in order: missing name,
/// missing model, missing endpoint, missing key, and an endpoint without
/// an HTTP scheme.
pub open spec fn spec_profile_findings(p: NewProfileState) -> Seq<Seq<char>> {
    let a: Seq<Seq<char>> = if p.name@.len() == 0 {
        seq!["Profile name is required"@]
    } else {
        Seq::empty()
    };
    let b: Seq<Seq<char>> = if p.model@.len() == 0 {
        seq!["Model is required"@]
    } else {
        Seq::empty()
    };
    let c: Seq<Seq<char>> = if p.endpoint@.len() == 0 {
        seq!["Endpoint is required"@]
    } else {
        Seq::empty()
    };
    let d: Seq<Seq<char>> = if p.api_key@.len() == 0 {
        seq!["API key is required"@]
    } else {
        Seq::empty()
    };
    let e: Seq<Seq<char>> = if !spec_starts_with(p.endpoint@, "http://"@) && !spec_starts_with(
        p.endpoint@,
        "https://"@,
    ) {
        seq!["Endpoint must start with http:// or https://"@]
    } else {
        Seq::empty()
    };
    a + b + c + d + e
}

/// The model-profiles settings section.
pub struct LlmProfilesSection;

impl LlmProfilesSection {
    /// A fresh section.
    pub fn new() -> (r: LlmProfilesSection) {
        LlmProfilesSection
    }

    /// The validation findings for a new profile, exactly as
    /// `spec_profile_findings` states.
    pub fn validate_profile(&self, profile: &NewProfileState) -> (r: Vec<String>)
        ensures
            r.deep_view() == spec_profile_findings(*profile),
    {
        let mut errors: Vec<String> = Vec::new();
        if profile.name.as_str().unicode_len() == 0 {
            errors.push(String::from_str("Profile name is required"));
        }
        if profile.model.as_str().unicode_len() == 0 {
            errors.push(String::from_str("Model is required"));
        }
        if profile.endpoint.as_str().unicode_len() == 0 {
            errors.push(String::from_str("Endpoint is required"));
        }
        if profile.api_key.as_str().unicode_len() == 0 {
            errors.push(String::from_str("API key is required"));
        }
        if !starts_with_str(profile.endpoint.as_str(), "http://") && !starts_with_str(
            profile.endpoint.as_str(),
            "https://",
        ) {
            errors.push(String::from_str("Endpoint must start with http:// or https://"));
        }
        proof {
            assert(errors.deep_view() =~= spec_profile_findings(*profile));
        }
        errors
    }
}

/// One tool server as edited on the settings page.
pub struct ServerFormState {
    pub name: String,
    pub server_kind: String,
    pub url: Option<String>,
    pub command: Option<String>,
    pub args: Option<Vec<String>>,
}

/// Which findings server validation reports, in order: missing name,
/// missing command, and an unquoted command containing spaces.
pub open spec fn spec_server_findings(s: ServerFormState) -> Seq<Seq<char>> {
    let a: Seq<Seq<char>> = if s.name@.len() == 0 {
        seq!["Server name is required"@]
    } else {
        Seq::empty()
    };
    let b: Seq<Seq<char>> = if match s.command {
        Some(c) => c@.len() == 0,
        None => true,
    } {
        seq!["Command is required"@]
    } else {
        Seq::empty()
    };
    let c: Seq<Seq<char>> = match s.command {
        Some(cmd) => if spec_contains(cmd@, " "@) && !spec_starts_with(cmd@, "\""@) {
            seq!["Consider quoting commands with spaces"@]
        } else {
            Seq::empty()
        },
        None => Seq::empty(),
    };
    a + b + c
}

/// The tool-server settings section.
pub struct MCPConfigSection;

impl MCPConfigSection {
    /// A fresh section.
    pub fn new() -> (r: MCPConfigSection) {
        MCPConfigSection
    }

    /// The validation findings for a server entry, exactly as
    /// `spec_server_findings` states.
    pub fn validate_server(&self, server: &ServerFormState) -> (r: Vec<String>)
        ensures
            r.deep_view() == spec_server_findings(*server),
    {
        let mut errors: Vec<String> = Vec::new();
        if server.name.as_str().unicode_len() == 0 {
            errors.push(String::from_str("Server name is required"));
        }
        let missing_command = match &server.command {
            Some(c) => c.as_str().unicode_len() == 0,
            None => true,
        };
        if missing_command {
            errors.push(String::from_str("Command is required"));
        }
        match &server.command {
            Some(cmd) => {
                if contains_sub(cmd.as_str(), " ") && !starts_with_str(cmd.as_str(), "\"") {
                    errors.push(String::from_str("Consider quoting commands with spaces"));
                }
            },
            None => {},
        }
        proof {
            assert(errors.deep_view() =~= spec_server_findings(*server));
        }
        errors
    }

    /// A blank stdio server entry named for editing.
    pub fn create_new_server() -> (r: ServerFormState)
        ensures
            r.name@ == "New Server"@,
            r.server_kind@ == "stdio"@,
            r.url is None,
            match r.command {
                Some(c) => c@ == Seq::<char>::empty(),
                None => false,
            },
            r.args is None,
    {
        ServerFormState {
            name: String::from_str("New Server"),
            server_kind: String::from_str("stdio"),
            url: None,
            command: Some(String::new()),
            args: None,
        }
    }
}

/// A titled settings section grouping.
pub struct SettingsSection;

impl SettingsSection {
    /// A fresh grouping.
    pub fn new() -> (r: SettingsSection) {
        SettingsSection
    }
}

/// The state of the simplified settings page.
pub struct SimpleSettingsPage {
    pub new_profile_name: String,
    pub new_profile_model: String,
    pub new_profile_endpoint: String,
}

/// What the simplified settings page can be told.
pub enum SimpleSettingsMessage {
    BackToMain,
    SetDefaultProfile(String),
    NewProfileNameChanged(String),
    NewProfileModelChanged(String),
    NewProfileEndpointChanged(String),
    AddNewProfile,
}

impl SimpleSettingsPage {
    /// A page with an empty new-profile form.
    pub fn new() -> (r: SimpleSettingsPage)
        ensures
            r.new_profile_name@ == Seq::<char>::empty(),
            r.new_profile_model@ == Seq::<char>::empty(),
            r.new_profile_endpoint@ == Seq::<char>::empty(),
    {
        SimpleSettingsPage {
            new_profile_name: String::new(),
            new_profile_model: String::new(),
            new_profile_endpoint: String::new(),
        }
    }
}

/// The context drawer's pages.
#[derive(Clone, Copy, PartialEq, Eq, Structural, Debug)]
pub enum ContextPage {
    About,
}

impl ContextPage {
    /// The title shown for the page.
    pub fn title(&self) -> (r: String)
        ensures
            r@ == "About"@,
    {
        String::from_str("About")
    }
}

impl Default for ContextPage {
    /// The about page.
    fn default() -> (r: ContextPage)
        ensures
            r is About,
    {
        ContextPage::About
    }
}

/// The startup flags of the application shell; it takes none.
pub fn flags() {
}

/// The top-level pages of the application shell.
#[derive(Clone, Copy, PartialEq, Eq, Structural, Debug)]
pub enum NavigationPage {
    Chat,
    History,
    MCPConfig,
    Settings,
}

/// The actions offered by the main menu.
#[derive(Clone, Copy, PartialEq, Eq, Structural, Debug)]
pub enum MenuAction {
    About,
    NewConversation,
    Settings,
    Quit,
    SendMessage,
}

/// The actions offered by the navigation context menu.
#[derive(Clone, Copy, PartialEq, Eq, Structural, Debug)]
pub enum NavMenuAction {
    NewConversation,
    Settings,
    About,
    Quit,
}

/// One recorded tool call anchored to its position in the transcript.
pub struct AnchoredToolCall {
    pub anchor_index: usize,
    pub tool_call: crate::turns::ToolCallInfo,
}

/// What a tool-call widget can be told.
pub enum Message {
    ToggleExpanded,
}

/// How far one tool call of a turn has come, as shown in its widget.
#[derive(Clone, Copy, PartialEq, Eq, Structural, Debug)]
pub enum ToolCallStatus {
    Started,
    Completed,
    Error,
}

/// The display state of one tool call.
pub struct ToolCallWidget {
    pub tool_name: String,
    pub parameters: String,
    pub status: ToolCallStatus,
    pub result: Option<String>,
    pub error: Option<String>,
    pub is_expanded: bool,
}

impl ToolCallWidget {
    /// Applies one message: toggling flips the expansion and changes
    /// nothing else.
    pub fn update(&mut self, message: Message)
        ensures
            final(self).is_expanded == !old(self).is_expanded,
            final(self).tool_name == old(self).tool_name,
            final(self).parameters == old(self).parameters,
            final(self).status == old(self).status,
            final(self).result == old(self).result,
            final(self).error == old(self).error,
    {
        match message {
            Message::ToggleExpanded => {
                self.is_expanded = !self.is_expanded;
            },
        }
    }
}

} // verus!
