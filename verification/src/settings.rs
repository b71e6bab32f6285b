//! The settings document: what the editor writes and the presence runner reads.
use vstd::prelude::*;

verus! {

/// `std::io::Error`, carried opaquely in the `Result` that settings constructors return.
#[verifier::external_type_specification]
#[verifier::external_body]
pub struct ExIoError(std::io::Error);

/// The whole settings document.
pub struct SettingsJson {
    pub app_settings: AppSettings,
    pub activity_details: ActivityDetails,
}

/// Settings of the application itself.
pub struct AppSettings {
    pub appid: String,
    pub auto_update: AutoUpdateStates,
}

/// How the application updates itself.
#[derive(PartialEq, Eq, Structural, Clone, Copy)]
pub enum AutoUpdateStates {
    No,
    Auto,
    Ask,
}

/// What the rich presence shows.
pub struct ActivityDetails {
    pub state: String,
    pub details: String,
    pub start_time: StartTimestampTypes,
    pub end_time: EndTimestampTypes,
    pub assets: Assets,
    pub party: Option<Party>,
    pub buttons: Option<Vec<Button>>,
}

/// A button attached to the presence: its label and the address it opens.
#[derive(Clone)]
pub struct Button {
    pub label: String,
    pub url: String,
}

/// Image keys and hover texts of the presence.
pub struct Assets {
    pub large_id: Option<String>,
    pub large_key: String,
    pub small_key: String,
    pub small_id: Option<String>,
    pub large_text: String,
    pub small_text: String,
    pub large_text_enabled: bool,
    pub small_text_enabled: bool,
}

/// Current and maximum size of the party.
#[derive(PartialEq, Eq, Structural, Clone, Copy)]
pub struct Party {
    pub size_min: i32,
    pub size_max: i32,
}

/// Where the elapsed-time counter of the presence starts.
#[derive(PartialEq, Eq, Structural, Clone, Copy)]
pub enum StartTimestampTypes {
    Unset,
    LaunchTime,
    LocalTime,
    Number(u64),
}

/// Where the remaining-time counter of the presence ends.
#[derive(PartialEq, Eq, Structural, Clone, Copy)]
pub enum EndTimestampTypes {
    Unset,
    DayEnd,
    Number(u64),
}

/// Assets with no image, no text and both texts switched off.
pub open spec fn no_assets(a: Assets) -> bool {
    &&& a.large_id is None
    &&& a.large_key@ == Seq::<char>::empty()
    &&& a.large_text@ == Seq::<char>::empty()
    &&& a.small_id is None
    &&& a.small_key@ == Seq::<char>::empty()
    &&& a.small_text@ == Seq::<char>::empty()
    &&& !a.large_text_enabled
    &&& !a.small_text_enabled
}

/// The empty document: no application id, no texts, no timestamps, party or buttons.
pub open spec fn is_empty_settings(s: SettingsJson) -> bool {
    &&& s.app_settings.appid@ == Seq::<char>::empty()
    &&& s.app_settings.auto_update == AutoUpdateStates::No
    &&& s.activity_details.state@ == Seq::<char>::empty()
    &&& s.activity_details.details@ == Seq::<char>::empty()
    &&& s.activity_details.start_time == StartTimestampTypes::Unset
    &&& s.activity_details.end_time == EndTimestampTypes::Unset
    &&& no_assets(s.activity_details.assets)
    &&& s.activity_details.party is None
    &&& s.activity_details.buttons is None
}

/// The document that a fresh installation starts from.
pub open spec fn is_default_settings(s: SettingsJson) -> bool {
    &&& s.app_settings.appid@ == "1221020414004822057"@
    &&& s.app_settings.auto_update == AutoUpdateStates::No
    &&& s.activity_details.state@ == "Doing Epic Things"@
    &&& s.activity_details.details@ == "some other epic thing."@
    &&& s.activity_details.start_time == StartTimestampTypes::LocalTime
    &&& s.activity_details.end_time == EndTimestampTypes::Unset
    &&& no_assets(s.activity_details.assets)
    &&& s.activity_details.party == Some(Party { size_min: 2, size_max: 5 })
    &&& s.activity_details.buttons matches Some(b) && b@.len() == 1
        && b@[0].label@ == "epic button"@ && b@[0].url@ == "about:blank"@
}

/// Assets with no image and no text.
fn empty_assets() -> (a: Assets)
    ensures
        no_assets(a),
{
    Assets {
        large_id: None,
        large_key: String::new(),
        large_text: String::new(),
        small_id: None,
        small_key: String::new(),
        small_text: String::new(),
        large_text_enabled: false,
        small_text_enabled: false,
    }
}

/// Constructors of the settings document that do no input or output.
pub trait SettingsJsonTrait: Sized {
    /// An empty document.
    fn new_empty() -> std::io::Result<SettingsJson>;

    /// The document that a fresh installation starts from.
    fn new_default() -> std::io::Result<SettingsJson>;
}

impl SettingsJsonTrait for SettingsJson {
    fn new_empty() -> (r: std::io::Result<SettingsJson>)
        ensures
            r matches Ok(s) && is_empty_settings(s),
    {
        let ret = SettingsJson {
            app_settings: AppSettings { appid: String::new(), auto_update: AutoUpdateStates::No },
            activity_details: ActivityDetails {
                state: String::new(),
                details: String::new(),
                start_time: StartTimestampTypes::Unset,
                end_time: EndTimestampTypes::Unset,
                assets: empty_assets(),
                party: None,
                buttons: None,
            },
        };
        Ok(ret)
    }

    fn new_default() -> (r: std::io::Result<SettingsJson>)
        ensures
            r matches Ok(s) && is_default_settings(s),
    {
        let ret = SettingsJson {
            app_settings: AppSettings {
                appid: "1221020414004822057".to_owned(),
                auto_update: AutoUpdateStates::No,
            },
            activity_details: ActivityDetails {
                state: "Doing Epic Things".to_owned(),
                details: "some other epic thing.".to_owned(),
                start_time: StartTimestampTypes::LocalTime,
                end_time: EndTimestampTypes::Unset,
                assets: empty_assets(),
                party: Some(Party { size_min: 2, size_max: 5 }),
                buttons: Some(vec![Button { label: "epic button".to_owned(), url: "about:blank".to_owned() }]),
            },
        };
        Ok(ret)
    }
}

/// The buttons of `d` as the presence shows them: all of them in order, none when unset.
pub open spec fn shown_buttons(d: ActivityDetails) -> Seq<(Seq<char>, Seq<char>)> {
    match d.buttons {
        Some(v) => v@.map_values(|b: Button| (b.label@, b.url@)),
        None => Seq::empty(),
    }
}

/// Conversion of the configured buttons into the buttons handed to Discord.
pub trait ButtonTrait {
    fn to_discord_button_vec(&self) -> Vec<Button>;
}

impl ButtonTrait for ActivityDetails {
    fn to_discord_button_vec(&self) -> (r: Vec<Button>)
        ensures
            r@.map_values(|b: Button| (b.label@, b.url@)) == shown_buttons(*self),
    {
        let mut out: Vec<Button> = Vec::new();
        match &self.buttons {
            Some(x) => {
                let mut i: usize = 0;
                while i < x.len()
                    invariant
                        i <= x@.len(),
                        out@.len() == i,
                        forall|j: int| 0 <= j < i ==> #[trigger] out@[j].label@ == x@[j].label@
                            && out@[j].url@ == x@[j].url@,
                    decreases x@.len() - i,
                {
                    out.push(Button { label: x[i].label.clone(), url: x[i].url.clone() });
                    i = i + 1;
                }
                assert(out@.map_values(|b: Button| (b.label@, b.url@)) =~= shown_buttons(*self));
            },
            None => {
                assert(out@.map_values(|b: Button| (b.label@, b.url@)) =~= shown_buttons(*self));
            },
        }
        out
    }
}

/// The characters of each button's label and address, or none when the buttons are unset.
pub open spec fn buttons_view(b: Option<Vec<Button>>) -> Option<Seq<Button>> {
    match b {
        Some(v) => Some(v@),
        None => None,
    }
}

/// `a` and `b` hold the same document, the party aside.
pub open spec fn same_except_party(a: SettingsJson, b: SettingsJson) -> bool {
    &&& a.app_settings == b.app_settings
    &&& a.activity_details.state == b.activity_details.state
    &&& a.activity_details.details == b.activity_details.details
    &&& a.activity_details.start_time == b.activity_details.start_time
    &&& a.activity_details.end_time == b.activity_details.end_time
    &&& a.activity_details.assets == b.activity_details.assets
    &&& buttons_view(a.activity_details.buttons) == buttons_view(b.activity_details.buttons)
}

/// A copy of an optional string.
fn copy_opt_string(o: &Option<String>) -> (r: Option<String>)
    ensures
        r == *o,
{
    match o {
        Some(s) => Some(s.clone()),
        None => None,
    }
}

/// A copy of the assets.
pub fn copy_assets(a: &Assets) -> (r: Assets)
    ensures
        r == *a,
{
    Assets {
        large_id: copy_opt_string(&a.large_id),
        large_key: a.large_key.clone(),
        small_key: a.small_key.clone(),
        small_id: copy_opt_string(&a.small_id),
        large_text: a.large_text.clone(),
        small_text: a.small_text.clone(),
        large_text_enabled: a.large_text_enabled,
        small_text_enabled: a.small_text_enabled,
    }
}

/// A copy of the buttons.
pub fn copy_buttons(b: &Option<Vec<Button>>) -> (r: Option<Vec<Button>>)
    ensures
        buttons_view(r) == buttons_view(*b),
{
    match b {
        Some(v) => {
            let mut out: Vec<Button> = Vec::new();
            let mut i: usize = 0;
            while i < v.len()
                invariant
                    i <= v@.len(),
                    out@ == v@.take(i as int),
                decreases v@.len() - i,
            {
                out.push(Button { label: v[i].label.clone(), url: v[i].url.clone() });
                assert(v@.take(i + 1) =~= v@.take(i as int).push(v@[i as int]));
                i = i + 1;
            }
            assert(v@.take(v@.len() as int) =~= v@);
            Some(out)
        },
        None => None,
    }
}

/// The document `s` with its party replaced by `party`.
pub fn with_party(s: &SettingsJson, party: Option<Party>) -> (r: SettingsJson)
    ensures
        same_except_party(r, *s),
        r.activity_details.party == party,
{
    SettingsJson {
        app_settings: AppSettings {
            appid: s.app_settings.appid.clone(),
            auto_update: s.app_settings.auto_update,
        },
        activity_details: ActivityDetails {
            state: s.activity_details.state.clone(),
            details: s.activity_details.details.clone(),
            start_time: s.activity_details.start_time,
            end_time: s.activity_details.end_time,
            assets: copy_assets(&s.activity_details.assets),
            party,
            buttons: copy_buttons(&s.activity_details.buttons),
        },
    }
}

} // verus!
