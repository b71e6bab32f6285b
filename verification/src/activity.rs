//! What the presence runner sends to Discord, derived from the settings.
use vstd::prelude::*;

use crate::settings::{shown_buttons, ActivityDetails, Assets, Button, ButtonTrait, Party, SettingsJson};
use crate::text::{is_blank, lemma_trim_empty_iff_blank, text_is_blank, trim_view};
use crate::timestamp::Timestamps;

verus! {

/// Images and hover texts of the activity; `None` leaves one out.
pub struct ActivityAssets {
    pub large_image: Option<String>,
    pub large_text: Option<String>,
    pub small_image: Option<String>,
    pub small_text: Option<String>,
}

/// Everything that the presence runner sends as one activity.
pub struct ActivityPlan {
    pub state: String,
    pub details: String,
    pub timestamps: Timestamps,
    /// Current and maximum party size; `None` sends an empty party.
    pub party_size: Option<(i32, i32)>,
    pub buttons: Vec<Button>,
    pub assets: ActivityAssets,
}

/// The characters of an optional string.
pub open spec fn opt_view(o: Option<String>) -> Option<Seq<char>> {
    match o {
        Some(s) => Some(s@),
        None => None,
    }
}

/// An image is shown for a key that is not blank; its text only with the image, and only
/// when switched on.
pub open spec fn image_and_text(key: Seq<char>, text: Seq<char>, enabled: bool) -> (
    Option<Seq<char>>,
    Option<Seq<char>>,
) {
    if trim_view(key).len() > 0 {
        (Some(key), if enabled { Some(text) } else { None })
    } else {
        (None, None)
    }
}

/// The images and texts that the configured assets show.
pub fn activity_assets(a: &Assets) -> (r: ActivityAssets)
    ensures
        (opt_view(r.large_image), opt_view(r.large_text)) == image_and_text(
            a.large_key@,
            a.large_text@,
            a.large_text_enabled,
        ),
        (opt_view(r.small_image), opt_view(r.small_text)) == image_and_text(
            a.small_key@,
            a.small_text@,
            a.small_text_enabled,
        ),
{
    let (large_image, large_text) = if !text_is_blank(a.large_key.as_str()) {
        (
            Some(a.large_key.clone()),
            if a.large_text_enabled {
                Some(a.large_text.clone())
            } else {
                None
            },
        )
    } else {
        (None, None)
    };
    let (small_image, small_text) = if !text_is_blank(a.small_key.as_str()) {
        (
            Some(a.small_key.clone()),
            if a.small_text_enabled {
                Some(a.small_text.clone())
            } else {
                None
            },
        )
    } else {
        (None, None)
    };
    ActivityAssets { large_image, large_text, small_image, small_text }
}

/// The party size to send: the configured one, or none.
pub fn activity_party_size(party: &Option<Party>) -> (r: Option<(i32, i32)>)
    ensures
        r == (match *party {
            Some(p) => Some((p.size_min, p.size_max)),
            None => None,
        }),
{
    match party {
        Some(p) => Some((p.size_min, p.size_max)),
        None => None,
    }
}

/// The activity for the settings in `config` with the given time counter.
pub fn plan_activity(config: &SettingsJson, timestamps: Timestamps) -> (r: ActivityPlan)
    ensures
        r.state@ == config.activity_details.state@,
        r.details@ == config.activity_details.details@,
        r.timestamps == timestamps,
        r.party_size == (match config.activity_details.party {
            Some(p) => Some((p.size_min, p.size_max)),
            None => None,
        }),
        r.buttons@.map_values(|b: Button| (b.label@, b.url@)) == shown_buttons(
            config.activity_details,
        ),
        (opt_view(r.assets.large_image), opt_view(r.assets.large_text)) == image_and_text(
            config.activity_details.assets.large_key@,
            config.activity_details.assets.large_text@,
            config.activity_details.assets.large_text_enabled,
        ),
        (opt_view(r.assets.small_image), opt_view(r.assets.small_text)) == image_and_text(
            config.activity_details.assets.small_key@,
            config.activity_details.assets.small_text@,
            config.activity_details.assets.small_text_enabled,
        ),
{
    let d: &ActivityDetails = &config.activity_details;
    ActivityPlan {
        state: d.state.clone(),
        details: d.details.clone(),
        timestamps,
        party_size: activity_party_size(&d.party),
        buttons: d.to_discord_button_vec(),
        assets: activity_assets(&d.assets),
    }
}

/// A hover text is never sent without its image.
pub proof fn law_text_needs_image(key: Seq<char>, text: Seq<char>, enabled: bool)
    ensures
        image_and_text(key, text, enabled).1 is Some ==> image_and_text(key, text, enabled).0 is Some,
        image_and_text(key, text, enabled).0 is Some ==> image_and_text(key, text, enabled).0 == Some(key),
{
}

/// An image is sent exactly when its key holds something other than white space, whatever
/// its hover text and the text's switch; the image sent is the key itself. Its hover text is
/// sent exactly when the image is and the text is switched on.
pub proof fn law_image_shown_iff_key_not_blank(key: Seq<char>, text: Seq<char>, enabled: bool)
    ensures
        !is_blank(key) ==> image_and_text(key, text, enabled).0 == Some(key),
        is_blank(key) ==> image_and_text(key, text, enabled).0 is None,
        image_and_text(key, text, enabled).1 == (if !is_blank(key) && enabled {
            Some(text)
        } else {
            None
        }),
{
    lemma_trim_empty_iff_blank(key);
}

} // verus!
