//! Calendar accounts. An account's `auth_data` is the address of its feed.
use vstd::prelude::*;
use crate::text::str_eq;

verus! {

/// The calendar services an account can belong to.
#[derive(Debug, Clone, Copy, PartialEq, Eq, Structural)]
pub enum CalendarProvider {
    Google,
    Proton,
}

/// The tag under which a provider is stored.
pub open spec fn provider_tag(provider: CalendarProvider) -> Seq<char> {
    match provider {
        CalendarProvider::Google => "google"@,
        CalendarProvider::Proton => "proton"@,
    }
}

/// The provider a stored tag names, if any.
pub open spec fn provider_of_tag(tag: Seq<char>) -> Option<CalendarProvider> {
    if tag == "google"@ {
        Some(CalendarProvider::Google)
    } else if tag == "proton"@ {
        Some(CalendarProvider::Proton)
    } else {
        None
    }
}

impl CalendarProvider {
    /// The tag under which the provider is stored.
    pub fn as_str(&self) -> (tag: &'static str)
        ensures
            tag@ == provider_tag(*self),
    {
        match self {
            CalendarProvider::Google => "google",
            CalendarProvider::Proton => "proton",
        }
    }
}

/// Each provider is found again from its own tag.
pub proof fn lemma_provider_tag_round_trip(provider: CalendarProvider)
    ensures
        provider_of_tag(provider_tag(provider)) == Some(provider),
{
    reveal_strlit("google");
    reveal_strlit("proton");
    if provider == CalendarProvider::Proton {
        assert("proton"@[0] != "google"@[0]);
    }
}

/// A calendar account.
#[derive(Debug, Clone)]
pub struct Account {
    /// Row identity, once stored.
    pub id: Option<i64>,
    /// Tag of the provider.
    pub provider: String,
    /// Name shown to the user.
    pub account_name: String,
    /// Address of the account's feed.
    pub auth_data: String,
    /// Unused by feed accounts.
    pub refresh_token: Option<String>,
    /// When the account was last synchronised.
    pub last_synced_at: Option<i64>,
}

impl Account {
    /// A new, unstored Google account.
    pub fn new_google(account_name: String, auth_data: String, refresh_token: Option<String>) -> (account: Self)
        ensures
            account.id is None,
            account.provider@ == provider_tag(CalendarProvider::Google),
            account.account_name == account_name,
            account.auth_data == auth_data,
            account.refresh_token == refresh_token,
            account.last_synced_at is None,
    {
        Self {
            id: None,
            provider: String::from_str(CalendarProvider::Google.as_str()),
            account_name,
            auth_data,
            refresh_token,
            last_synced_at: None,
        }
    }

    /// A new, unstored Proton account fed from `ics_url`.
    pub fn new_proton(account_name: String, ics_url: String) -> (account: Self)
        ensures
            account.id is None,
            account.provider@ == provider_tag(CalendarProvider::Proton),
            account.account_name == account_name,
            account.auth_data == ics_url,
            account.refresh_token is None,
            account.last_synced_at is None,
    {
        Self {
            id: None,
            provider: String::from_str(CalendarProvider::Proton.as_str()),
            account_name,
            auth_data: ics_url,
            refresh_token: None,
            last_synced_at: None,
        }
    }

    /// The account's provider, or a message that names the unknown tag.
    pub fn provider(&self) -> (r: Result<CalendarProvider, String>)
        ensures
            match provider_of_tag(self.provider@) {
                Some(p) => r == Ok::<CalendarProvider, String>(p),
                None => r is Err && r->Err_0@ == "Unknown provider: "@ + self.provider@,
            },
    {
        if str_eq(self.provider.as_str(), "google") {
            Ok(CalendarProvider::Google)
        } else if str_eq(self.provider.as_str(), "proton") {
            Ok(CalendarProvider::Proton)
        } else {
            let mut message = String::from_str("Unknown provider: ");
            message.append(self.provider.as_str());
            Err(message)
        }
    }
}

} // verus!
