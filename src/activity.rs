//! The presence value: what the application is doing, as shown by the peer.
use vstd::prelude::*;

verus! {

/// What kind of activity is shown.
#[derive(Debug, Clone, Copy, PartialEq, Eq, Structural, Default)]
pub enum ActivityType {
    #[default]
    Playing,
    Listening,
    Watching,
}

/// The numeric code of an activity type on the wire.
pub open spec fn type_code(ty: ActivityType) -> u8 {
    match ty {
        ActivityType::Playing => 0,
        ActivityType::Listening => 2,
        ActivityType::Watching => 3,
    }
}

impl ActivityType {
    /// The numeric code that the peer knows this type by.
    pub fn to_u8(&self) -> (r: u8)
        ensures
            r == type_code(*self),
    {
        match self {
            ActivityType::Playing => 0,
            ActivityType::Listening => 2,
            ActivityType::Watching => 3,
        }
    }
}

/// Start and end of the activity, in milliseconds since the epoch.
#[derive(Debug, Clone, Copy, PartialEq, Eq, Structural, Default)]
pub struct ActivityTimestamps {
    pub(crate) start: Option<u128>,
    pub(crate) end: Option<u128>,
}

/// Image keys and their hover texts.
#[derive(Debug, Clone, Copy, Default)]
pub struct ActivityAssets<'a> {
    pub(crate) large_image: Option<&'a str>,
    pub(crate) large_text: Option<&'a str>,
    pub(crate) small_image: Option<&'a str>,
    pub(crate) small_text: Option<&'a str>,
}

/// A button: its label and the address it opens.
#[derive(Debug, Clone, Copy, Default)]
pub struct ActivityButton<'a> {
    pub(crate) label: &'a str,
    pub(crate) url: &'a str,
}

/// The party the user is in: its identifier and its current and largest size.
#[derive(Debug, Clone, Copy, Default)]
pub struct ActivityParty<'a> {
    pub(crate) id: Option<&'a str>,
    pub(crate) size: Option<[u8; 2]>,
}

/// Tokens for joining, spectating and matching.
#[derive(Debug, Clone, Copy, Default)]
pub struct ActivitySecrets<'a> {
    pub(crate) join: Option<&'a str>,
    pub(crate) spectate: Option<&'a str>,
    pub(crate) match_id: Option<&'a str>,
}

/// A presence value. Every field but the type is optional.
#[derive(Debug, Clone, Copy, Default)]
pub struct Activity<'a> {
    pub(crate) ty: ActivityType,
    pub(crate) details: Option<&'a str>,
    pub(crate) state: Option<&'a str>,
    pub(crate) assets: Option<ActivityAssets<'a>>,
    pub(crate) buttons: Option<&'a [ActivityButton<'a>]>,
    pub(crate) timestamps: Option<ActivityTimestamps>,
    pub(crate) party: Option<ActivityParty<'a>>,
    pub(crate) secrets: Option<ActivitySecrets<'a>>,
    pub(crate) instance: Option<bool>,
}

/// The image keys and hover texts that are set.
pub struct AssetsModel {
    pub large_image: Option<Seq<char>>,
    pub large_text: Option<Seq<char>>,
    pub small_image: Option<Seq<char>>,
    pub small_text: Option<Seq<char>>,
}

/// A button's label and address.
pub struct ButtonModel {
    pub label: Seq<char>,
    pub url: Seq<char>,
}

/// The party's id and its (current, largest) size, where set.
pub struct PartyModel {
    pub id: Option<Seq<char>>,
    pub size: Option<(u8, u8)>,
}

/// The secrets that are set.
pub struct SecretsModel {
    pub join: Option<Seq<char>>,
    pub spectate: Option<Seq<char>>,
    pub match_id: Option<Seq<char>>,
}

/// A presence value as the text and numbers that it holds.
pub struct ActivityModel {
    pub ty: ActivityType,
    pub details: Option<Seq<char>>,
    pub state: Option<Seq<char>>,
    pub assets: Option<AssetsModel>,
    pub buttons: Option<Seq<ButtonModel>>,
    pub timestamps: Option<(Option<u128>, Option<u128>)>,
    pub party: Option<PartyModel>,
    pub secrets: Option<SecretsModel>,
    pub instance: Option<bool>,
}

impl View for ActivityTimestamps {
    type V = (Option<u128>, Option<u128>);

    open(crate) spec fn view(&self) -> (Option<u128>, Option<u128>) {
        (self.start, self.end)
    }
}

/// The text of an optional string.
pub open spec fn text_of(s: Option<&str>) -> Option<Seq<char>> {
    match s {
        Some(t) => Some(t@),
        None => None,
    }
}

impl<'a> View for ActivityAssets<'a> {
    type V = AssetsModel;

    open(crate) spec fn view(&self) -> AssetsModel {
        AssetsModel {
            large_image: text_of(self.large_image),
            large_text: text_of(self.large_text),
            small_image: text_of(self.small_image),
            small_text: text_of(self.small_text),
        }
    }
}

impl<'a> View for ActivityButton<'a> {
    type V = ButtonModel;

    open(crate) spec fn view(&self) -> ButtonModel {
        ButtonModel { label: self.label@, url: self.url@ }
    }
}

impl<'a> View for ActivityParty<'a> {
    type V = PartyModel;

    open(crate) spec fn view(&self) -> PartyModel {
        PartyModel {
            id: text_of(self.id),
            size: match self.size {
                Some(s) => Some((s[0], s[1])),
                None => None,
            },
        }
    }
}

impl<'a> View for ActivitySecrets<'a> {
    type V = SecretsModel;

    open(crate) spec fn view(&self) -> SecretsModel {
        SecretsModel {
            join: text_of(self.join),
            spectate: text_of(self.spectate),
            match_id: text_of(self.match_id),
        }
    }
}

/// The buttons, each as its model.
pub open spec fn buttons_model(b: Seq<ActivityButton>) -> Seq<ButtonModel> {
    b.map_values(|x: ActivityButton| x@)
}

impl<'a> View for Activity<'a> {
    type V = ActivityModel;

    open(crate) spec fn view(&self) -> ActivityModel {
        ActivityModel {
            ty: self.ty,
            details: text_of(self.details),
            state: text_of(self.state),
            assets: match self.assets {
                Some(a) => Some(a@),
                None => None,
            },
            buttons: match self.buttons {
                Some(b) => Some(buttons_model(b@)),
                None => None,
            },
            timestamps: match self.timestamps {
                Some(t) => Some(t@),
                None => None,
            },
            party: match self.party {
                Some(p) => Some(p@),
                None => None,
            },
            secrets: match self.secrets {
                Some(s) => Some(s@),
                None => None,
            },
            instance: self.instance,
        }
    }
}

fn same_text(a: &str, b: &str) -> (r: bool)
    ensures
        r == (a@ == b@),
{
    a.to_owned() == b.to_owned()
}

fn same_opt_text(a: Option<&str>, b: Option<&str>) -> (r: bool)
    ensures
        r == (text_of(a) == text_of(b)),
{
    match (a, b) {
        (Some(x), Some(y)) => same_text(x, y),
        (None, None) => true,
        _ => false,
    }
}

impl<'a> PartialEq for ActivityAssets<'a> {
    fn eq(&self, o: &Self) -> (r: bool)
        ensures
            r == (self@ == o@),
    {
        same_opt_text(self.large_image, o.large_image) && same_opt_text(
            self.large_text,
            o.large_text,
        ) && same_opt_text(self.small_image, o.small_image) && same_opt_text(
            self.small_text,
            o.small_text,
        )
    }
}

impl<'a> vstd::std_specs::cmp::PartialEqSpecImpl for ActivityAssets<'a> {
    open spec fn obeys_eq_spec() -> bool {
        true
    }

    open spec fn eq_spec(&self, o: &Self) -> bool {
        self@ == o@
    }
}

impl<'a> PartialEq for ActivityButton<'a> {
    fn eq(&self, o: &Self) -> (r: bool)
        ensures
            r == (self@ == o@),
    {
        same_text(self.label, o.label) && same_text(self.url, o.url)
    }
}

impl<'a> vstd::std_specs::cmp::PartialEqSpecImpl for ActivityButton<'a> {
    open spec fn obeys_eq_spec() -> bool {
        true
    }

    open spec fn eq_spec(&self, o: &Self) -> bool {
        self@ == o@
    }
}

impl<'a> PartialEq for ActivityParty<'a> {
    fn eq(&self, o: &Self) -> (r: bool)
        ensures
            r == (self@ == o@),
    {
        let same_size = match (self.size, o.size) {
            (Some(x), Some(y)) => x[0] == y[0] && x[1] == y[1],
            (None, None) => true,
            _ => false,
        };
        same_opt_text(self.id, o.id) && same_size
    }
}

impl<'a> vstd::std_specs::cmp::PartialEqSpecImpl for ActivityParty<'a> {
    open spec fn obeys_eq_spec() -> bool {
        true
    }

    open spec fn eq_spec(&self, o: &Self) -> bool {
        self@ == o@
    }
}

impl<'a> PartialEq for ActivitySecrets<'a> {
    fn eq(&self, o: &Self) -> (r: bool)
        ensures
            r == (self@ == o@),
    {
        same_opt_text(self.join, o.join) && same_opt_text(self.spectate, o.spectate)
            && same_opt_text(self.match_id, o.match_id)
    }
}

impl<'a> vstd::std_specs::cmp::PartialEqSpecImpl for ActivitySecrets<'a> {
    open spec fn obeys_eq_spec() -> bool {
        true
    }

    open spec fn eq_spec(&self, o: &Self) -> bool {
        self@ == o@
    }
}

fn same_buttons(a: &[ActivityButton], b: &[ActivityButton]) -> (r: bool)
    ensures
        r == (buttons_model(a@) == buttons_model(b@)),
{
    if a.len() != b.len() {
        assert(buttons_model(a@).len() != buttons_model(b@).len());
        return false;
    }
    let mut i: usize = 0;
    while i < a.len()
        invariant
            i <= a@.len() == b@.len(),
            forall|j: int| 0 <= j < i ==> #[trigger] a@[j]@ == b@[j]@,
        decreases a@.len() - i,
    {
        if !a[i].eq(&b[i]) {
            assert(buttons_model(a@)[i as int] != buttons_model(b@)[i as int]);
            return false;
        }
        i = i + 1;
    }
    assert(buttons_model(a@) =~= buttons_model(b@));
    true
}

impl<'a> PartialEq for Activity<'a> {
    fn eq(&self, o: &Self) -> (r: bool)
        ensures
            r == (self@ == o@),
    {
        let same_assets = match (&self.assets, &o.assets) {
            (Some(x), Some(y)) => x.eq(y),
            (None, None) => true,
            _ => false,
        };
        let same_buttons = match (self.buttons, o.buttons) {
            (Some(x), Some(y)) => same_buttons(x, y),
            (None, None) => true,
            _ => false,
        };
        let same_party = match (&self.party, &o.party) {
            (Some(x), Some(y)) => x.eq(y),
            (None, None) => true,
            _ => false,
        };
        let same_secrets = match (&self.secrets, &o.secrets) {
            (Some(x), Some(y)) => x.eq(y),
            (None, None) => true,
            _ => false,
        };
        let same_times = match (self.timestamps, o.timestamps) {
            (Some(x), Some(y)) => x.start == y.start && x.end == y.end,
            (None, None) => true,
            _ => false,
        };
        let same_instance = match (self.instance, o.instance) {
            (Some(x), Some(y)) => x == y,
            (None, None) => true,
            _ => false,
        };
        self.ty == o.ty && same_opt_text(self.details, o.details) && same_opt_text(
            self.state,
            o.state,
        ) && same_assets && same_buttons && same_times && same_party && same_secrets
            && same_instance
    }
}

impl<'a> vstd::std_specs::cmp::PartialEqSpecImpl for Activity<'a> {
    open spec fn obeys_eq_spec() -> bool {
        true
    }

    open spec fn eq_spec(&self, o: &Self) -> bool {
        self@ == o@
    }
}

/// A presence value with no field set, of type `Playing`.
pub open spec fn empty_activity() -> ActivityModel {
    ActivityModel {
        ty: ActivityType::Playing,
        details: None,
        state: None,
        assets: None,
        buttons: None,
        timestamps: None,
        party: None,
        secrets: None,
        instance: None,
    }
}

pub open spec fn no_assets() -> AssetsModel {
    AssetsModel { large_image: None, large_text: None, small_image: None, small_text: None }
}

/// The assets that are set, or none of them.
pub open spec fn assets_or_none(a: Option<AssetsModel>) -> AssetsModel {
    match a {
        Some(a) => a,
        None => no_assets(),
    }
}

/// The party that is set, or one with neither id nor size.
pub open spec fn party_or_none(p: Option<PartyModel>) -> PartyModel {
    match p {
        Some(p) => p,
        None => PartyModel { id: None, size: None },
    }
}

/// The secrets that are set, or none of them.
pub open spec fn secrets_or_none(s: Option<SecretsModel>) -> SecretsModel {
    match s {
        Some(s) => s,
        None => SecretsModel { join: None, spectate: None, match_id: None },
    }
}

/// The timestamps that are set, or neither of them.
pub open spec fn times_or_none(t: Option<(Option<u128>, Option<u128>)>) -> (Option<u128>, Option<u128>) {
    match t {
        Some(t) => t,
        None => (None, None),
    }
}

impl<'a> Activity<'a> {
    pub fn new() -> (r: Self)
        ensures
            r@ == empty_activity(),
    {
        Activity {
            ty: ActivityType::Playing,
            details: None,
            state: None,
            assets: None,
            buttons: None,
            timestamps: None,
            party: None,
            secrets: None,
            instance: None,
        }
    }

    pub fn details(self, details: &'a str) -> (r: Self)
        ensures
            r@ == (ActivityModel { details: Some(details@), ..self@ }),
    {
        Self { details: Some(details), ..self }
    }

    pub fn state(self, state: &'a str) -> (r: Self)
        ensures
            r@ == (ActivityModel { state: Some(state@), ..self@ }),
    {
        Self { state: Some(state), ..self }
    }

    pub fn assets(self, assets: ActivityAssets<'a>) -> (r: Self)
        ensures
            r@ == (ActivityModel { assets: Some(assets@), ..self@ }),
    {
        Self { assets: Some(assets), ..self }
    }

    pub fn buttons(self, buttons: &'a [ActivityButton<'a>]) -> (r: Self)
        ensures
            r@ == (ActivityModel { buttons: Some(buttons_model(buttons@)), ..self@ }),
    {
        Self { buttons: Some(buttons), ..self }
    }

    pub fn timestamps(self, timestamps: ActivityTimestamps) -> (r: Self)
        ensures
            r@ == (ActivityModel { timestamps: Some(timestamps@), ..self@ }),
    {
        Self { timestamps: Some(timestamps), ..self }
    }

    /// Sets the start time, keeping an end time that is set.
    pub fn start_time(self, time: u128) -> (r: Self)
        ensures
            r@ == (ActivityModel {
                timestamps: Some((Some(time), times_or_none(self@.timestamps).1)),
                ..self@
            }),
    {
        let mut t = match self.timestamps {
            Some(t) => t,
            None => ActivityTimestamps { start: None, end: None },
        };
        t.start = Some(time);
        Self { timestamps: Some(t), ..self }
    }

    /// Sets the end time, keeping a start time that is set.
    pub fn end_time(self, time: u128) -> (r: Self)
        ensures
            r@ == (ActivityModel {
                timestamps: Some((times_or_none(self@.timestamps).0, Some(time))),
                ..self@
            }),
    {
        let mut t = match self.timestamps {
            Some(t) => t,
            None => ActivityTimestamps { start: None, end: None },
        };
        t.end = Some(time);
        Self { timestamps: Some(t), ..self }
    }

    pub fn party(self, party: ActivityParty<'a>) -> (r: Self)
        ensures
            r@ == (ActivityModel { party: Some(party@), ..self@ }),
    {
        Self { party: Some(party), ..self }
    }

    /// Sets the party id, keeping a party size that is set.
    pub fn party_id(self, id: &'a str) -> (r: Self)
        ensures
            r@ == (ActivityModel {
                party: Some(PartyModel { id: Some(id@), ..party_or_none(self@.party) }),
                ..self@
            }),
    {
        let mut p = match self.party {
            Some(p) => p,
            None => ActivityParty { id: None, size: None },
        };
        p.id = Some(id);
        Self { party: Some(p), ..self }
    }

    /// Sets the party's current and largest size, keeping a party id that is set.
    pub fn party_size(self, size: [u8; 2]) -> (r: Self)
        ensures
            r@ == (ActivityModel {
                party: Some(PartyModel { size: Some((size[0], size[1])), ..party_or_none(self@.party) }),
                ..self@
            }),
    {
        let mut p = match self.party {
            Some(p) => p,
            None => ActivityParty { id: None, size: None },
        };
        p.size = Some(size);
        Self { party: Some(p), ..self }
    }

    pub fn secrets(self, secrets: ActivitySecrets<'a>) -> (r: Self)
        ensures
            r@ == (ActivityModel { secrets: Some(secrets@), ..self@ }),
    {
        Self { secrets: Some(secrets), ..self }
    }

    /// Sets the join secret, keeping the other secrets that are set.
    pub fn join_secret(self, secret: &'a str) -> (r: Self)
        ensures
            r@ == (ActivityModel {
                secrets: Some(SecretsModel { join: Some(secret@), ..secrets_or_none(self@.secrets) }),
                ..self@
            }),
    {
        let mut s = match self.secrets {
            Some(s) => s,
            None => ActivitySecrets { join: None, spectate: None, match_id: None },
        };
        s.join = Some(secret);
        Self { secrets: Some(s), ..self }
    }

    /// Sets the spectate secret, keeping the other secrets that are set.
    pub fn spectate_secret(self, secret: &'a str) -> (r: Self)
        ensures
            r@ == (ActivityModel {
                secrets: Some(SecretsModel { spectate: Some(secret@), ..secrets_or_none(self@.secrets) }),
                ..self@
            }),
    {
        let mut s = match self.secrets {
            Some(s) => s,
            None => ActivitySecrets { join: None, spectate: None, match_id: None },
        };
        s.spectate = Some(secret);
        Self { secrets: Some(s), ..self }
    }

    /// Sets the match secret, keeping the other secrets that are set.
    pub fn match_secret(self, secret: &'a str) -> (r: Self)
        ensures
            r@ == (ActivityModel {
                secrets: Some(SecretsModel { match_id: Some(secret@), ..secrets_or_none(self@.secrets) }),
                ..self@
            }),
    {
        let mut s = match self.secrets {
            Some(s) => s,
            None => ActivitySecrets { join: None, spectate: None, match_id: None },
        };
        s.match_id = Some(secret);
        Self { secrets: Some(s), ..self }
    }

    pub fn instance(self, instance: bool) -> (r: Self)
        ensures
            r@ == (ActivityModel { instance: Some(instance), ..self@ }),
    {
        Self { instance: Some(instance), ..self }
    }

    pub fn ty(self, ty: ActivityType) -> (r: Self)
        ensures
            r@ == (ActivityModel { ty, ..self@ }),
    {
        Self { ty: ty, ..self }
    }

    /// Sets the large image key, keeping the other assets that are set.
    pub fn large_image(self, large_image: &'a str) -> (r: Self)
        ensures
            r@ == (ActivityModel {
                assets: Some(AssetsModel { large_image: Some(large_image@), ..assets_or_none(self@.assets) }),
                ..self@
            }),
    {
        let a = match self.assets {
            Some(a) => a,
            None => ActivityAssets::new(),
        };
        Self { assets: Some(a.large_image(large_image)), ..self }
    }

    /// Sets the large image's hover text, keeping the other assets that are set.
    pub fn large_text(self, large_text: &'a str) -> (r: Self)
        ensures
            r@ == (ActivityModel {
                assets: Some(AssetsModel { large_text: Some(large_text@), ..assets_or_none(self@.assets) }),
                ..self@
            }),
    {
        let a = match self.assets {
            Some(a) => a,
            None => ActivityAssets::new(),
        };
        Self { assets: Some(a.large_text(large_text)), ..self }
    }

    /// Sets the small image key, keeping the other assets that are set.
    pub fn small_image(self, small_image: &'a str) -> (r: Self)
        ensures
            r@ == (ActivityModel {
                assets: Some(AssetsModel { small_image: Some(small_image@), ..assets_or_none(self@.assets) }),
                ..self@
            }),
    {
        let a = match self.assets {
            Some(a) => a,
            None => ActivityAssets::new(),
        };
        Self { assets: Some(a.small_image(small_image)), ..self }
    }

    /// Sets the small image's hover text, keeping the other assets that are set.
    pub fn small_text(self, small_text: &'a str) -> (r: Self)
        ensures
            r@ == (ActivityModel {
                assets: Some(AssetsModel { small_text: Some(small_text@), ..assets_or_none(self@.assets) }),
                ..self@
            }),
    {
        let a = match self.assets {
            Some(a) => a,
            None => ActivityAssets::new(),
        };
        Self { assets: Some(a.small_text(small_text)), ..self }
    }
}

impl<'a> ActivityAssets<'a> {
    pub fn new() -> (r: Self)
        ensures
            r@ == no_assets(),
    {
        ActivityAssets { large_image: None, large_text: None, small_image: None, small_text: None }
    }

    pub fn large_image(self, large_image: &'a str) -> (r: Self)
        ensures
            r@ == (AssetsModel { large_image: Some(large_image@), ..self@ }),
    {
        Self { large_image: Some(large_image), ..self }
    }

    pub fn large_text(self, large_text: &'a str) -> (r: Self)
        ensures
            r@ == (AssetsModel { large_text: Some(large_text@), ..self@ }),
    {
        Self { large_text: Some(large_text), ..self }
    }

    pub fn small_image(self, small_image: &'a str) -> (r: Self)
        ensures
            r@ == (AssetsModel { small_image: Some(small_image@), ..self@ }),
    {
        Self { small_image: Some(small_image), ..self }
    }

    pub fn small_text(self, small_text: &'a str) -> (r: Self)
        ensures
            r@ == (AssetsModel { small_text: Some(small_text@), ..self@ }),
    {
        Self { small_text: Some(small_text), ..self }
    }
}

impl<'a> ActivityButton<'a> {
    pub fn new(label: &'a str, url: &'a str) -> (r: Self)
        ensures
            r@ == (ButtonModel { label: label@, url: url@ }),
    {
        ActivityButton { label, url }
    }
}

impl<'a> ActivityParty<'a> {
    pub fn new(id: &'a str, size: [u8; 2]) -> (r: Self)
        ensures
            r@ == (PartyModel { id: Some(id@), size: Some((size[0], size[1])) }),
    {
        ActivityParty { id: Some(id), size: Some(size) }
    }
}

impl<'a> ActivitySecrets<'a> {
    pub fn new(join: &'a str, spectate: &'a str, match_id: &'a str) -> (r: Self)
        ensures
            r@ == (SecretsModel {
                join: Some(join@),
                spectate: Some(spectate@),
                match_id: Some(match_id@),
            }),
    {
        ActivitySecrets { join: Some(join), spectate: Some(spectate), match_id: Some(match_id) }
    }
}

impl ActivityTimestamps {
    pub fn with_start(start: u128) -> (r: Self)
        ensures
            r@ == (Some(start), None::<u128>),
    {
        ActivityTimestamps { start: Some(start), end: None }
    }

    pub fn with_end(end: u128) -> (r: Self)
        ensures
            r@ == (None::<u128>, Some(end)),
    {
        ActivityTimestamps { start: None, end: Some(end) }
    }
}

} // verus!
