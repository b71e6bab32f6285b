//! Decisions of the settings editor: validation of what was typed, the choices its menus
//! offer and what a chosen option changes in the settings.
use vstd::prelude::*;

use crate::dropdown::DropdownButton;
use crate::req::DiscordAsset;
use crate::settings::{
    buttons_view, same_except_party, with_party, EndTimestampTypes, Party, SettingsJson,
    StartTimestampTypes,
};
use crate::text::{
    all_ascii, all_numeric, decimal_digits, only_digits, i32_or_zero, i32_to_decimal, is_numeric, law_i32_decimal_roundtrip,
    law_u64_decimal_roundtrip, parse_i32_or_zero, parse_u64_or_zero, signed_decimal,
    text_is_blank, trim_view, trimmed_byte_len, u64_or_zero,
};

verus! {

/// The page the editor shows.
#[derive(PartialEq, Eq, Structural, Clone, Copy)]
pub enum ActivePage {
    RPCSettings,
    Settings,
}

/// Whether a required text (the state or the details) is missing: empty or only white space.
pub fn text_missing(s: &str) -> (r: bool)
    ensures
        r == (trim_view(s@).len() == 0),
{
    text_is_blank(s)
}

/// The party as edited, and what is wrong with the input.
pub struct PartyCheck {
    pub party: Party,
    /// The minimum holds a non-numeric character while the party is on.
    pub min_invalid: bool,
    /// The maximum holds a non-numeric character while the party is on.
    pub max_invalid: bool,
    /// The maximum was taken and lies below the minimum.
    pub max_below_min: bool,
}

impl PartyCheck {
    /// Any of the three faults.
    pub open spec fn spec_has_errors(self) -> bool {
        self.min_invalid || self.max_invalid || self.max_below_min
    }

    /// Whether the input has any fault.
    pub fn has_errors(&self) -> (r: bool)
        ensures
            r == self.spec_has_errors(),
    {
        self.min_invalid || self.max_invalid || self.max_below_min
    }
}

/// The check of the party texts `min_text` and `max_text` against the party `current`.
///
/// A text is taken unless it holds a non-numeric character while the party is on; a taken
/// text that writes no `i32` gives 0. A rejected text keeps the size that `current` had.
/// The maximum is compared with the minimum only when it was taken.
pub open spec fn spec_check_party(
    current: Party,
    min_text: Seq<char>,
    max_text: Seq<char>,
    party_on: bool,
) -> PartyCheck {
    let min_invalid = party_on && !all_numeric(min_text);
    let max_invalid = party_on && !all_numeric(max_text);
    let size_min = if min_invalid {
        current.size_min
    } else {
        i32_or_zero(min_text)
    };
    let size_max = if max_invalid {
        current.size_max
    } else {
        i32_or_zero(max_text)
    };
    PartyCheck {
        party: Party { size_min, size_max },
        min_invalid,
        max_invalid,
        max_below_min: !max_invalid && size_max < size_min,
    }
}

/// Takes the texts typed for the party's minimum and maximum size, as `spec_check_party`.
pub fn check_party(current: Party, min_text: &str, max_text: &str, party_on: bool) -> (r:
    PartyCheck)
    ensures
        r == spec_check_party(current, min_text@, max_text@, party_on),
        all_ascii(min_text@) ==> r.min_invalid == (party_on && !only_digits(min_text@)),
        all_ascii(max_text@) ==> r.max_invalid == (party_on && !only_digits(max_text@)),
{
    let mut party = Party { size_min: current.size_min, size_max: current.size_max };
    let mut min_invalid = false;
    let mut max_invalid = false;
    let mut max_below_min = false;
    if !is_numeric(min_text) && party_on {
        min_invalid = true;
    } else {
        party.size_min = parse_i32_or_zero(min_text);
    }
    if !is_numeric(max_text) && party_on {
        max_invalid = true;
    } else {
        party.size_max = parse_i32_or_zero(max_text);
        if party.size_max < party.size_min {
            max_below_min = true;
        }
    }
    PartyCheck { party, min_invalid, max_invalid, max_below_min }
}

/// The texts that the party fields show for `p`: its sizes in decimal.
pub fn party_texts(p: Party) -> (r: (String, String))
    ensures
        r.0@ == signed_decimal(p.size_min as int),
        r.1@ == signed_decimal(p.size_max as int),
{
    (i32_to_decimal(p.size_min), i32_to_decimal(p.size_max))
}

/// Leaving the party fields as shown keeps the party, whether it is switched on or not.
pub proof fn law_untouched_party_is_kept(p: Party, party_on: bool)
    ensures
        spec_check_party(
            p,
            signed_decimal(p.size_min as int),
            signed_decimal(p.size_max as int),
            party_on,
        ).party == p,
{
    law_i32_decimal_roundtrip(p.size_min);
    law_i32_decimal_roundtrip(p.size_max);
}

/// Whether an image text is switched on and, trimmed, shorter than three bytes.
pub fn image_text_too_short(text: &str, enabled: bool) -> (r: bool)
    ensures
        r == ((vstd::utf8::encode_utf8(trim_view(text@)).len() as usize) < 3 && enabled),
{
    trimmed_byte_len(text) < 3 && enabled
}

/// Whether the form may not be saved: a missing text, a faulty party or a short image text.
pub fn form_has_errors(
    state_missing: bool,
    details_missing: bool,
    party: &PartyCheck,
    large_text_short: bool,
    small_text_short: bool,
) -> (r: bool)
    ensures
        r == (state_missing || details_missing || party.spec_has_errors() || large_text_short
            || small_text_short),
{
    state_missing || details_missing || party.has_errors() || large_text_short || small_text_short
}

/// The options of the image menus: "None" first, then every asset under its name.
pub fn image_options(saved: &Vec<DiscordAsset>) -> (r: Vec<DropdownButton<String>>)
    ensures
        is_image_menu(r@, saved@),
{
    let mut r: Vec<DropdownButton<String>> = vec![
        DropdownButton { name: "None".to_owned(), value: "none".to_owned() },
    ];
    let mut i: usize = 0;
    while i < saved.len()
        invariant
            i <= saved@.len(),
            r@.len() == i + 1,
            r@[0].name@ == "None"@,
            r@[0].value@ == "none"@,
            forall|j: int|
                0 <= j < i ==> #[trigger] r@[j + 1].name@ == saved@[j].name@ && r@[j
                    + 1].value@ == saved@[j].name@,
        decreases saved@.len() - i,
    {
        r.push(DropdownButton { name: saved[i].name.clone(), value: saved[i].name.clone() });
        i = i + 1;
    }
    r
}

/// The text of an option that an image key is compared with: its name, or its value.
pub open spec fn option_text(b: DropdownButton<String>, by_value: bool) -> Seq<char> {
    if by_value {
        b.value@
    } else {
        b.name@
    }
}

/// `options` is the image menu for the assets `saved`: "None" (value `none`) first, then
/// every asset, whose name is both the option's name and its value.
pub open spec fn is_image_menu(options: Seq<DropdownButton<String>>, saved: Seq<DiscordAsset>) -> bool {
    &&& options.len() == saved.len() + 1
    &&& options[0].name@ == "None"@
    &&& options[0].value@ == "none"@
    &&& forall|i: int|
        0 <= i < saved.len() ==> #[trigger] options[i + 1].name@ == saved[i].name@ && options[i
            + 1].value@ == saved[i].name@
}

/// `r` is where the image menu opens for the key `key`: 0 for a blank key, else the first
/// option whose name (or value, when `by_value`) is the key, or the number of options when
/// none is.
pub open spec fn is_image_index(
    options: Seq<DropdownButton<String>>,
    key: Seq<char>,
    by_value: bool,
    r: int,
) -> bool {
    &&& trim_view(key).len() == 0 ==> r == 0
    &&& trim_view(key).len() > 0 ==> {
        &&& 0 <= r <= options.len()
        &&& forall|j: int| 0 <= j < r ==> option_text(#[trigger] options[j], by_value) != key
        &&& r < options.len() ==> option_text(options[r], by_value) == key
    }
}

/// Index of the option that shows the image `key`: 0 for a blank key, else the first option
/// whose name (or value, when `by_value`) is the key, or the number of options when none is.
pub fn image_option_index(options: &Vec<DropdownButton<String>>, key: &str, by_value: bool) -> (r:
    usize)
    ensures
        is_image_index(options@, key@, by_value, r as int),
{
    if text_is_blank(key) {
        return 0;
    }
    let k = key.to_owned();
    let mut i: usize = 0;
    while i < options.len()
        invariant
            i <= options@.len(),
            k@ == key@,
            trim_view(key@).len() > 0,
            forall|j: int| 0 <= j < i ==> option_text(#[trigger] options@[j], by_value) != key@,
        decreases options@.len() - i,
    {
        let found = if by_value {
            options[i].value == k
        } else {
            options[i].name == k
        };
        if found {
            return i;
        }
        i = i + 1;
    }
    i
}

/// The large image key after the choice `chosen`: the chosen option's value, or empty.
pub open spec fn spec_large_key(chosen: Option<DropdownButton<String>>) -> Seq<char> {
    match chosen {
        Some(j) => j.value@,
        None => Seq::<char>::empty(),
    }
}

/// The small image key after the choice `chosen`: the chosen option's value, empty when that
/// value is `none` or nothing is chosen.
pub open spec fn spec_small_key(chosen: Option<DropdownButton<String>>) -> Seq<char> {
    match chosen {
        Some(j) => if j.value@ == "none"@ {
            Seq::<char>::empty()
        } else {
            j.value@
        },
        None => Seq::<char>::empty(),
    }
}

/// The large image key after a choice in its menu: the chosen option's value, or empty.
pub fn large_key_from_choice(chosen: Option<DropdownButton<String>>) -> (r: String)
    ensures
        r@ == spec_large_key(chosen),
{
    match chosen {
        Some(j) => j.value,
        None => String::new(),
    }
}

/// The small image key after a choice in its menu: the chosen option's value, empty when
/// that value is `none` or nothing is chosen.
pub fn small_key_from_choice(chosen: Option<DropdownButton<String>>) -> (r: String)
    ensures
        r@ == spec_small_key(chosen),
{
    match chosen {
        Some(j) => {
            if j.value == "none".to_owned() {
                String::new()
            } else {
                j.value
            }
        },
        None => String::new(),
    }
}

/// Position of a start setting in the start menu.
pub open spec fn spec_start_time_index(s: StartTimestampTypes) -> usize {
    match s {
        StartTimestampTypes::Unset => 0,
        StartTimestampTypes::LaunchTime => 1,
        StartTimestampTypes::LocalTime => 2,
        StartTimestampTypes::Number(_) => 3,
    }
}

/// Position of an end setting in the end menu.
pub open spec fn spec_end_time_index(e: EndTimestampTypes) -> usize {
    match e {
        EndTimestampTypes::Unset => 0,
        EndTimestampTypes::DayEnd => 1,
        EndTimestampTypes::Number(_) => 2,
    }
}

/// Position of `s` in the start menu.
pub fn start_time_index(s: &StartTimestampTypes) -> (r: usize)
    ensures
        r == spec_start_time_index(*s),
{
    match s {
        StartTimestampTypes::Unset => 0,
        StartTimestampTypes::LaunchTime => 1,
        StartTimestampTypes::LocalTime => 2,
        StartTimestampTypes::Number(_) => 3,
    }
}

/// Position of `e` in the end menu.
pub fn end_time_index(e: &EndTimestampTypes) -> (r: usize)
    ensures
        r == spec_end_time_index(*e),
{
    match e {
        EndTimestampTypes::Unset => 0,
        EndTimestampTypes::DayEnd => 1,
        EndTimestampTypes::Number(_) => 2,
    }
}

/// The options of the start menu.
pub fn start_time_options() -> (r: Vec<DropdownButton<StartTimestampTypes>>)
    ensures
        r@.len() == 4,
        r@[0].name@ == "None"@ && r@[0].value == StartTimestampTypes::Unset,
        r@[1].name@ == "launch time"@ && r@[1].value == StartTimestampTypes::LaunchTime,
        r@[2].name@ == "local time"@ && r@[2].value == StartTimestampTypes::LocalTime,
        r@[3].name@ == "timestamp number"@ && r@[3].value == StartTimestampTypes::Number(0),
        forall|i: int| 0 <= i < 4 ==> #[trigger] r@[i].value == start_option_values()[i],
{
    vec![
        DropdownButton { name: "None".to_owned(), value: StartTimestampTypes::Unset },
        DropdownButton { name: "launch time".to_owned(), value: StartTimestampTypes::LaunchTime },
        DropdownButton { name: "local time".to_owned(), value: StartTimestampTypes::LocalTime },
        DropdownButton {
            name: "timestamp number".to_owned(),
            value: StartTimestampTypes::Number(0),
        },
    ]
}

/// The options of the end menu.
pub fn end_time_options() -> (r: Vec<DropdownButton<EndTimestampTypes>>)
    ensures
        r@.len() == 3,
        r@[0].name@ == "None"@ && r@[0].value == EndTimestampTypes::Unset,
        r@[1].name@ == "day end"@ && r@[1].value == EndTimestampTypes::DayEnd,
        r@[2].name@ == "timestamp number"@ && r@[2].value == EndTimestampTypes::Number(0),
        forall|i: int| 0 <= i < 3 ==> #[trigger] r@[i].value == end_option_values()[i],
{
    vec![
        DropdownButton { name: "None".to_owned(), value: EndTimestampTypes::Unset },
        DropdownButton { name: "day end".to_owned(), value: EndTimestampTypes::DayEnd },
        DropdownButton { name: "timestamp number".to_owned(), value: EndTimestampTypes::Number(0) },
    ]
}

/// The number that the start setting holds, or 0: what its number field shows.
pub fn start_time_number(s: &StartTimestampTypes) -> (r: u64)
    ensures
        r == spec_start_number(*s),
{
    match s {
        StartTimestampTypes::Number(n) => *n,
        _ => 0,
    }
}

/// The number that the end setting holds, or 0: what its number field shows.
pub fn end_time_number(e: &EndTimestampTypes) -> (r: u64)
    ensures
        r == spec_end_number(*e),
{
    match e {
        EndTimestampTypes::Number(n) => *n,
        _ => 0,
    }
}

/// The start setting after a choice in the start menu: nothing chosen unsets it; the number
/// option takes the number typed (0 when it writes no `u64`); any other option is taken.
pub open spec fn spec_chosen_start(
    chosen: Option<StartTimestampTypes>,
    number_text: Seq<char>,
) -> StartTimestampTypes {
    match chosen {
        None => StartTimestampTypes::Unset,
        Some(StartTimestampTypes::Number(_)) => StartTimestampTypes::Number(u64_or_zero(number_text)),
        Some(v) => v,
    }
}

/// The end setting after a choice in the end menu, as for `spec_chosen_start`.
pub open spec fn spec_chosen_end(chosen: Option<EndTimestampTypes>, number_text: Seq<char>) -> EndTimestampTypes {
    match chosen {
        None => EndTimestampTypes::Unset,
        Some(EndTimestampTypes::Number(_)) => EndTimestampTypes::Number(u64_or_zero(number_text)),
        Some(v) => v,
    }
}

/// The start setting after a choice in the start menu, as `spec_chosen_start`.
pub fn chosen_start_time(chosen: Option<StartTimestampTypes>, number_text: &str) -> (r:
    StartTimestampTypes)
    ensures
        r == spec_chosen_start(chosen, number_text@),
{
    match chosen {
        None => StartTimestampTypes::Unset,
        Some(StartTimestampTypes::Number(_)) => StartTimestampTypes::Number(
            parse_u64_or_zero(number_text),
        ),
        Some(v) => v,
    }
}

/// The end setting after a choice in the end menu, as `spec_chosen_end`.
pub fn chosen_end_time(chosen: Option<EndTimestampTypes>, number_text: &str) -> (r:
    EndTimestampTypes)
    ensures
        r == spec_chosen_end(chosen, number_text@),
{
    match chosen {
        None => EndTimestampTypes::Unset,
        Some(EndTimestampTypes::Number(_)) => EndTimestampTypes::Number(
            parse_u64_or_zero(number_text),
        ),
        Some(v) => v,
    }
}

/// The values of the start menu's options, in order.
pub open spec fn start_option_values() -> Seq<StartTimestampTypes> {
    seq![
        StartTimestampTypes::Unset,
        StartTimestampTypes::LaunchTime,
        StartTimestampTypes::LocalTime,
        StartTimestampTypes::Number(0),
    ]
}

/// The values of the end menu's options, in order.
pub open spec fn end_option_values() -> Seq<EndTimestampTypes> {
    seq![EndTimestampTypes::Unset, EndTimestampTypes::DayEnd, EndTimestampTypes::Number(0)]
}

/// The number that a start setting shows in its number field.
pub open spec fn spec_start_number(s: StartTimestampTypes) -> u64 {
    match s {
        StartTimestampTypes::Number(n) => n,
        _ => 0,
    }
}

/// The number that an end setting shows in its number field.
pub open spec fn spec_end_number(e: EndTimestampTypes) -> u64 {
    match e {
        EndTimestampTypes::Number(n) => n,
        _ => 0,
    }
}

/// The start menu opens at the stored setting; choosing that option again, with the number
/// field as shown, gives back the stored setting.
pub proof fn law_untouched_start_time_is_kept(s: StartTimestampTypes)
    ensures
        spec_chosen_start(
            Some(start_option_values()[spec_start_time_index(s) as int]),
            decimal_digits(spec_start_number(s) as nat),
        ) == s,
{
    law_u64_decimal_roundtrip(spec_start_number(s));
}

/// The end menu opens at the stored setting; choosing that option again, with the number
/// field as shown, gives back the stored setting.
pub proof fn law_untouched_end_time_is_kept(e: EndTimestampTypes)
    ensures
        spec_chosen_end(
            Some(end_option_values()[spec_end_time_index(e) as int]),
            decimal_digits(spec_end_number(e) as nat),
        ) == e,
{
    law_u64_decimal_roundtrip(spec_end_number(e));
}

/// Whether the party is switched on when the editor opens, and the party it edits: the
/// stored one, or an empty party when none is stored.
pub fn initial_party(stored: Option<Party>) -> (r: (bool, Party))
    ensures
        r.0 == stored is Some,
        r.1 == (match stored {
            Some(p) => p,
            None => Party { size_min: 0, size_max: 0 },
        }),
{
    match stored {
        Some(p) => (true, p),
        None => (false, Party { size_min: 0, size_max: 0 }),
    }
}

/// The id of the asset named `target` among `find_in` from index `i` on: the first match's
/// id, or `-1` when there is none.
pub open spec fn image_id_from(find_in: Seq<DiscordAsset>, target: Seq<char>, i: int) -> Seq<char>
    decreases find_in.len() - i,
{
    if i < 0 || i >= find_in.len() {
        "-1"@
    } else if find_in[i].name@ == target {
        find_in[i].id@
    } else {
        image_id_from(find_in, target, i + 1)
    }
}

/// The id of the first asset named `target`, or `-1` when no asset has that name.
pub fn get_image_id_by_name(target: &str, find_in: &Vec<DiscordAsset>) -> (r: String)
    ensures
        r@ == image_id_from(find_in@, target@, 0),
{
    let t = target.to_owned();
    let mut i: usize = 0;
    while i < find_in.len()
        invariant
            i <= find_in@.len(),
            t@ == target@,
            image_id_from(find_in@, target@, 0) == image_id_from(find_in@, target@, i as int),
        decreases find_in@.len() - i,
    {
        if find_in[i].name == t {
            return find_in[i].id.clone();
        }
        i = i + 1;
    }
    "-1".to_owned()
}

/// The image id that the preview shows: the stored one, else the id looked up by the large
/// image key.
pub fn preview_image_id(large_id: &Option<String>, large_key: &str, saved: &Vec<DiscordAsset>) -> (r:
    String)
    ensures
        r@ == (match *large_id {
            Some(s) => s@,
            None => image_id_from(saved@, large_key@, 0),
        }),
{
    match large_id {
        Some(s) => s.clone(),
        None => get_image_id_by_name(large_key, saved),
    }
}

/// The party written to disk on save: the edited party while it is switched on, else none.
pub fn party_to_save(party: Option<Party>, party_on: bool) -> (r: Option<Party>)
    ensures
        r == (if party_on {
            party
        } else {
            None
        }),
{
    if party_on {
        party
    } else {
        None
    }
}

/// A message in the editor's bottom bar.
pub enum StatusMessage {
    /// Saving was refused because the form has errors.
    InvalidFields,
    Saved,
    /// Writing the settings failed with the given report.
    SaveFailed(String),
    Launched,
    /// Starting the presence runner failed with the given report.
    LaunchFailed(String),
    Stopped,
    /// Stopping the presence runner failed with the given report.
    StopFailed(String),
}

/// How a message in the bottom bar is coloured.
#[derive(PartialEq, Eq, Structural, Clone, Copy, Debug)]
pub enum Tone {
    Plain,
    Warning,
    Error,
}

impl StatusMessage {
    /// The text of the message.
    pub open spec fn spec_text(&self) -> Seq<char> {
        match self {
            StatusMessage::InvalidFields => "Some fields contained invalid values, so it couldn't be saved to disk."@,
            StatusMessage::Saved => "The configuration has been saved to disk."@,
            StatusMessage::SaveFailed(e) => "Something went wrong while saving. "@ + e@,
            StatusMessage::Launched => "Successfully launched activity!"@,
            StatusMessage::LaunchFailed(e) => "Couldnt launch the activity process: "@ + e@,
            StatusMessage::Stopped => "Stopped activity process."@,
            StatusMessage::StopFailed(e) => "Couldnt stop the activity process: "@ + e@,
        }
    }

    /// The text of the message.
    pub fn text(&self) -> (r: String)
        ensures
            r@ == self.spec_text(),
    {
        match self {
            StatusMessage::InvalidFields => "Some fields contained invalid values, so it couldn't be saved to disk.".to_owned(),
            StatusMessage::Saved => "The configuration has been saved to disk.".to_owned(),
            StatusMessage::SaveFailed(e) => {
                let mut r = "Something went wrong while saving. ".to_owned();
                r.append(e.as_str());
                r
            },
            StatusMessage::Launched => "Successfully launched activity!".to_owned(),
            StatusMessage::LaunchFailed(e) => {
                let mut r = "Couldnt launch the activity process: ".to_owned();
                r.append(e.as_str());
                r
            },
            StatusMessage::Stopped => "Stopped activity process.".to_owned(),
            StatusMessage::StopFailed(e) => {
                let mut r = "Couldnt stop the activity process: ".to_owned();
                r.append(e.as_str());
                r
            },
        }
    }

    /// The colour of the message: a refused save warns, a failure is an error.
    pub fn tone(&self) -> (r: Tone)
        ensures
            r == (match self {
                StatusMessage::InvalidFields => Tone::Warning,
                StatusMessage::SaveFailed(_) | StatusMessage::LaunchFailed(_)
                | StatusMessage::StopFailed(_) => Tone::Error,
                _ => Tone::Plain,
            }),
    {
        match self {
            StatusMessage::InvalidFields => Tone::Warning,
            StatusMessage::SaveFailed(_) | StatusMessage::LaunchFailed(_)
            | StatusMessage::StopFailed(_) => Tone::Error,
            _ => Tone::Plain,
        }
    }
}

/// What a click on "save" does: refuse when the form has errors, else give the document to
/// write: the edited settings, with the party only while it is switched on. The edited
/// settings themselves are left as they are.
pub fn plan_save(contains_errors: bool, settings: &SettingsJson, party_on: bool) -> (r: Result<
    SettingsJson,
    StatusMessage,
>)
    ensures
        contains_errors ==> r matches Err(StatusMessage::InvalidFields),
        !contains_errors ==> (r matches Ok(d) && same_except_party(d, *settings)
            && d.activity_details.party == (if party_on {
            settings.activity_details.party
        } else {
            None
        })),
{
    if contains_errors {
        Err(StatusMessage::InvalidFields)
    } else {
        Ok(with_party(settings, party_to_save(settings.activity_details.party, party_on)))
    }
}

/// The large image menu opens at an option whose value is the stored key, so choosing it
/// again keeps the key; the key "None" is the exception, as the first option is named so.
pub proof fn law_untouched_large_image_is_kept(
    options: Seq<DropdownButton<String>>,
    saved: Seq<DiscordAsset>,
    key: Seq<char>,
    r: int,
)
    requires
        is_image_menu(options, saved),
        is_image_index(options, key, false, r),
        trim_view(key).len() > 0,
        r < options.len(),
        key != "None"@,
    ensures
        options[r].value@ == key,
{
    if r > 0 {
        assert(options[(r - 1) + 1].name@ == saved[r - 1].name@);
    }
}

/// The small image menu opens at the option whose value is the stored key, so choosing it
/// again keeps the key; the key "none" is the exception, as choosing "None" clears the key.
pub proof fn law_untouched_small_image_is_kept(
    options: Seq<DropdownButton<String>>,
    saved: Seq<DiscordAsset>,
    key: Seq<char>,
    r: int,
)
    requires
        is_image_menu(options, saved),
        is_image_index(options, key, true, r),
        trim_view(key).len() > 0,
        r < options.len(),
        key != "none"@,
    ensures
        options[r].value@ == key,
        (if options[r].value@ == "none"@ {
            Seq::<char>::empty()
        } else {
            options[r].value@
        }) == key,
{
}

/// What the widgets of the rich-presence page hold at the end of a frame: the texts as
/// edited, the switches, the party texts, the menus' choices and the number fields.
pub struct RpcFrameInput {
    pub state: String,
    pub details: String,
    pub party_on: bool,
    pub min_text: String,
    pub max_text: String,
    pub large_text_enabled: bool,
    pub large_text: String,
    pub small_text_enabled: bool,
    pub small_text: String,
    pub large_choice: Option<DropdownButton<String>>,
    pub small_choice: Option<DropdownButton<String>>,
    pub start_choice: Option<StartTimestampTypes>,
    pub start_number_text: String,
    pub end_choice: Option<EndTimestampTypes>,
    pub end_number_text: String,
}

/// What a frame of the rich-presence page found wrong.
pub struct FrameReport {
    pub state_missing: bool,
    pub details_missing: bool,
    pub party: PartyCheck,
    pub large_text_short: bool,
    pub small_text_short: bool,
    /// Any of the faults above: the form may not be saved.
    pub contains_errors: bool,
}

/// Applies one frame of the rich-presence page to the settings: takes the edited texts and
/// switches, the party as `check_party` takes it, the image keys and timestamps that the
/// menus give, and caches the preview's image id once it is looked up. The application's
/// settings and the buttons are left alone, and the party stays set.
pub fn rpc_page_frame(settings: &mut SettingsJson, input: RpcFrameInput, saved: &Vec<DiscordAsset>) -> (r:
    FrameReport)
    requires
        old(settings).activity_details.party is Some,
    ensures
        final(settings).app_settings == old(settings).app_settings,
        buttons_view(final(settings).activity_details.buttons) == buttons_view(
            old(settings).activity_details.buttons,
        ),
        final(settings).activity_details.state == input.state,
        final(settings).activity_details.details == input.details,
        r.party == spec_check_party(
            old(settings).activity_details.party->0,
            input.min_text@,
            input.max_text@,
            input.party_on,
        ),
        final(settings).activity_details.party == Some(r.party.party),
        final(settings).activity_details.assets.large_text_enabled == input.large_text_enabled,
        final(settings).activity_details.assets.large_text == input.large_text,
        final(settings).activity_details.assets.small_text_enabled == input.small_text_enabled,
        final(settings).activity_details.assets.small_text == input.small_text,
        final(settings).activity_details.assets.large_key@ == spec_large_key(input.large_choice),
        final(settings).activity_details.assets.small_key@ == spec_small_key(input.small_choice),
        final(settings).activity_details.assets.small_id == old(settings).activity_details.assets.small_id,
        old(settings).activity_details.assets.large_id is Some ==> final(settings).activity_details.assets.large_id == old(settings).activity_details.assets.large_id,
        old(settings).activity_details.assets.large_id is None ==> (final(settings).activity_details.assets.large_id matches Some(id) && id@ == image_id_from(
            saved@,
            final(settings).activity_details.assets.large_key@,
            0,
        )),
        final(settings).activity_details.start_time == spec_chosen_start(
            input.start_choice,
            input.start_number_text@,
        ),
        final(settings).activity_details.end_time == spec_chosen_end(
            input.end_choice,
            input.end_number_text@,
        ),
        r.state_missing == (trim_view(input.state@).len() == 0),
        r.details_missing == (trim_view(input.details@).len() == 0),
        r.large_text_short == ((vstd::utf8::encode_utf8(trim_view(input.large_text@)).len()
            as usize) < 3 && input.large_text_enabled),
        r.small_text_short == ((vstd::utf8::encode_utf8(trim_view(input.small_text@)).len()
            as usize) < 3 && input.small_text_enabled),
        r.contains_errors == (r.state_missing || r.details_missing || r.party.spec_has_errors()
            || r.large_text_short || r.small_text_short),
{
    let RpcFrameInput {
        state,
        details,
        party_on,
        min_text,
        max_text,
        large_text_enabled,
        large_text,
        small_text_enabled,
        small_text,
        large_choice,
        small_choice,
        start_choice,
        start_number_text,
        end_choice,
        end_number_text,
    } = input;
    let state_missing = text_missing(state.as_str());
    let details_missing = text_missing(details.as_str());
    let current = match settings.activity_details.party {
        Some(p) => p,
        None => Party { size_min: 0, size_max: 0 },
    };
    let party = check_party(current, min_text.as_str(), max_text.as_str(), party_on);
    let large_text_short = image_text_too_short(large_text.as_str(), large_text_enabled);
    let small_text_short = image_text_too_short(small_text.as_str(), small_text_enabled);
    let contains_errors = form_has_errors(
        state_missing,
        details_missing,
        &party,
        large_text_short,
        small_text_short,
    );
    settings.activity_details.state = state;
    settings.activity_details.details = details;
    settings.activity_details.party = Some(party.party);
    settings.activity_details.assets.large_text_enabled = large_text_enabled;
    settings.activity_details.assets.large_text = large_text;
    settings.activity_details.assets.small_text_enabled = small_text_enabled;
    settings.activity_details.assets.small_text = small_text;
    settings.activity_details.assets.large_key = large_key_from_choice(large_choice);
    settings.activity_details.assets.small_key = small_key_from_choice(small_choice);
    if settings.activity_details.assets.large_id.is_none() {
        let id = preview_image_id(
            &settings.activity_details.assets.large_id,
            settings.activity_details.assets.large_key.as_str(),
            saved,
        );
        settings.activity_details.assets.large_id = Some(id);
    }
    settings.activity_details.start_time = chosen_start_time(
        start_choice,
        start_number_text.as_str(),
    );
    settings.activity_details.end_time = chosen_end_time(end_choice, end_number_text.as_str());
    FrameReport {
        state_missing,
        details_missing,
        party,
        large_text_short,
        small_text_short,
        contains_errors,
    }
}

/// Applies one frame of the settings page: the application id as edited; nothing else
/// changes.
pub fn settings_page_frame(settings: &mut SettingsJson, appid: String)
    ensures
        final(settings).app_settings.appid == appid,
        final(settings).app_settings.auto_update == old(settings).app_settings.auto_update,
        final(settings).activity_details == old(settings).activity_details,
{
    settings.app_settings.appid = appid;
}

/// A maximum that was taken is reported below the minimum exactly when it is strictly
/// smaller than the minimum taken with it: an equal minimum and maximum is no fault.
pub proof fn law_max_below_min_is_strict(
    current: Party,
    min_text: Seq<char>,
    max_text: Seq<char>,
    party_on: bool,
)
    ensures
        ({
            let c = spec_check_party(current, min_text, max_text, party_on);
            &&& c.max_below_min ==> !c.max_invalid && c.party.size_max < c.party.size_min
            &&& !c.max_invalid && c.party.size_max < c.party.size_min ==> c.max_below_min
            &&& c.party.size_max == c.party.size_min ==> !c.max_below_min
        }),
{
}

/// The same text typed for the minimum and the maximum is never reported as a maximum below
/// the minimum.
pub proof fn law_equal_party_texts_are_no_fault(current: Party, text: Seq<char>, party_on: bool)
    ensures
        !spec_check_party(current, text, text, party_on).max_below_min,
{
}

/// Every fault of a party check makes the form unsavable: an invalid minimum, an invalid
/// maximum, or a maximum below the minimum; without any of them the party is no reason to
/// refuse.
pub proof fn law_party_faults_are_errors(c: PartyCheck)
    ensures
        c.max_below_min ==> c.spec_has_errors(),
        c.min_invalid ==> c.spec_has_errors(),
        c.max_invalid ==> c.spec_has_errors(),
        !c.min_invalid && !c.max_invalid && !c.max_below_min ==> !c.spec_has_errors(),
{
}

/// Texts whose maximum, when taken, lies below the minimum give a check with errors.
pub proof fn law_max_below_min_blocks_saving(
    current: Party,
    min_text: Seq<char>,
    max_text: Seq<char>,
    party_on: bool,
)
    ensures
        ({
            let c = spec_check_party(current, min_text, max_text, party_on);
            !c.max_invalid && c.party.size_max < c.party.size_min ==> c.spec_has_errors()
        }),
{
}

/// From index `i` on: when some asset at or after `i` is named `target`, the id is that of
/// the first such asset; otherwise it is `-1`.
proof fn lemma_image_id_from(find_in: Seq<DiscordAsset>, target: Seq<char>, i: int)
    requires
        0 <= i <= find_in.len(),
    ensures
        (exists|k: int| i <= k < find_in.len() && #[trigger] find_in[k].name@ == target)
            ==> exists|k: int|
            i <= k < find_in.len() && #[trigger] find_in[k].name@ == target && (forall|j: int|
                i <= j < k ==> #[trigger] find_in[j].name@ != target) && image_id_from(
                find_in,
                target,
                i,
            ) == find_in[k].id@,
        (forall|k: int| i <= k < find_in.len() ==> #[trigger] find_in[k].name@ != target)
            ==> image_id_from(find_in, target, i) == "-1"@,
    decreases find_in.len() - i,
{
    if i < find_in.len() {
        lemma_image_id_from(find_in, target, i + 1);
        if find_in[i].name@ != target {
            if exists|k: int| i <= k < find_in.len() && #[trigger] find_in[k].name@ == target {
                let k0 = choose|k: int| i <= k < find_in.len() && #[trigger] find_in[k].name@ == target;
                assert(k0 > i);
                assert(exists|k: int| i + 1 <= k < find_in.len() && #[trigger] find_in[k].name@ == target);
                let k = choose|k: int|
                    i + 1 <= k < find_in.len() && #[trigger] find_in[k].name@ == target && (forall|j: int|
                        i + 1 <= j < k ==> #[trigger] find_in[j].name@ != target) && image_id_from(
                        find_in,
                        target,
                        i + 1,
                    ) == find_in[k].id@;
                assert forall|j: int| i <= j < k implies #[trigger] find_in[j].name@ != target by {
                    if j > i {
                    }
                }
            }
        } else {
            assert(forall|j: int| i <= j < i ==> #[trigger] find_in[j].name@ != target);
        }
    }
}

/// The preview lookup finds the first asset named `target`, wherever it stands in the list,
/// the last place included; it gives `-1` only when no asset has that name.
pub proof fn law_image_id_is_first_match(find_in: Seq<DiscordAsset>, target: Seq<char>)
    ensures
        (exists|k: int| 0 <= k < find_in.len() && #[trigger] find_in[k].name@ == target)
            ==> exists|k: int|
            0 <= k < find_in.len() && #[trigger] find_in[k].name@ == target && (forall|j: int|
                0 <= j < k ==> #[trigger] find_in[j].name@ != target) && image_id_from(
                find_in,
                target,
                0,
            ) == find_in[k].id@,
        (forall|k: int| 0 <= k < find_in.len() ==> #[trigger] find_in[k].name@ != target)
            ==> image_id_from(find_in, target, 0) == "-1"@,
{
    lemma_image_id_from(find_in, target, 0);
}

} // verus!
