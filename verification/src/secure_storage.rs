//! Secrets in the keychain of the operating system, one entry for each
//! provider.

use vstd::prelude::*;
use vstd::string::StringExecFns;
use crate::protocol::BedrockCredentials;
use crate::protocol::CredentialsModel;
use crate::protocol::credentials_of_text;

verus! {

/// The service under which every entry is filed.
pub const SERVICE_NAME: &'static str = "com.kevinlin.cowork-z";

/// Why the keychain did not do what was asked.
#[derive(Debug)]
pub enum StoreFailure {
    /// There is no entry for the provider.
    NoEntry,
    /// Any other failure, with the keychain's own words.
    Other(String),
}

/// `keyring::Entry`, held as an opaque value.
#[verifier::external_type_specification]
#[verifier::external_body]
pub struct ExEntry(keyring::Entry);

/// Calls `keyring::Entry::new`. Nothing is promised of the outcome; a
/// failure comes back as the text of the keychain's error.
#[verifier::external_body]
fn open_entry(service: &str, user: &str) -> (r: Result<keyring::Entry, String>) {
    keyring::Entry::new(service, user).map_err(|e| e.to_string())
}

/// Calls `Entry::get_password`. Nothing is promised of the outcome, which
/// depends on what the keychain holds.
#[verifier::external_body]
fn entry_get(entry: &keyring::Entry) -> (r: Result<String, StoreFailure>) {
    entry.get_password().map_err(|e| match e {
        keyring::Error::NoEntry => StoreFailure::NoEntry,
        other => StoreFailure::Other(other.to_string()),
    })
}

/// Calls `Entry::set_password`. Nothing is promised of the outcome; a
/// failure comes back as the text of the keychain's error.
#[verifier::external_body]
fn entry_set(entry: &keyring::Entry, password: &str) -> (r: Result<(), String>) {
    entry.set_password(password).map_err(|e| e.to_string())
}

/// Calls `Entry::delete_password`. Nothing is promised of the outcome, which
/// depends on what the keychain holds.
#[verifier::external_body]
fn entry_delete(entry: &keyring::Entry) -> (r: Result<(), StoreFailure>) {
    entry.delete_password().map_err(|e| match e {
        keyring::Error::NoEntry => StoreFailure::NoEntry,
        other => StoreFailure::Other(other.to_string()),
    })
}

/// The report of a keychain that could not be opened.
pub open spec fn keychain_error(reason: Seq<char>) -> Seq<char> {
    "Keychain error: "@ + reason
}

/// Builds the report of a keychain that could not be opened.
pub fn keychain_error_message(reason: &str) -> (r: String)
    ensures
        r@ == keychain_error(reason@),
{
    String::from_str("Keychain error: ").concat(reason)
}

/// What a lookup gives, as the callers see it: the secret, its absence, or
/// a report that begins with `context`.
pub open spec fn lookup_outcome(
    found: Result<String, StoreFailure>,
    context: Seq<char>,
    r: Result<Option<String>, String>,
) -> bool {
    match found {
        Ok(secret) => r == Ok::<Option<String>, String>(Some(secret)),
        Err(StoreFailure::NoEntry) => r == Ok::<Option<String>, String>(None),
        Err(StoreFailure::Other(reason)) => r matches Err(report) && report@ == context + reason@,
    }
}

/// Turns what the keychain gave for a lookup into what the callers see: a
/// missing entry is no error.
pub fn lookup_result(found: Result<String, StoreFailure>, context: &str) -> (r: Result<
    Option<String>,
    String,
>)
    ensures
        lookup_outcome(found, context@, r),
{
    match found {
        Ok(secret) => Ok(Some(secret)),
        Err(StoreFailure::NoEntry) => Ok(None),
        Err(StoreFailure::Other(reason)) => Err(String::from_str(context).concat(reason.as_str())),
    }
}

/// Whether a report is one that a call on the keychain can give: that the
/// keychain could not be opened, or the keychain's reason after `context`.
pub open spec fn is_lookup_report(report: Seq<char>, context: Seq<char>) -> bool {
    ||| exists|reason: Seq<char>| report == keychain_error(reason)
    ||| exists|reason: Seq<char>| report == context + reason
}

/// Retrieves the secret stored for a provider; `None` where none is stored.
pub fn get_api_key(provider: &str) -> (r: Result<Option<String>, String>)
    ensures
        r matches Err(report) ==> is_lookup_report(report@, "Failed to get API key: "@),
{
    match open_entry(SERVICE_NAME, provider) {
        Ok(entry) => {
            let found = entry_get(&entry);
            let ghost given = found;
            let r = lookup_result(found, "Failed to get API key: ");
            proof {
                if r is Err {
                    let reason = given->Err_0->Other_0@;
                    assert(r->Err_0@ == "Failed to get API key: "@ + reason);
                }
            }
            r
        },
        Err(reason) => {
            let report = keychain_error_message(reason.as_str());
            assert(report@ == keychain_error(reason@));
            Err(report)
        },
    }
}

/// What a change of the keychain gives, as the callers see it.
pub open spec fn change_outcome(
    done: Result<(), String>,
    context: Seq<char>,
    r: Result<(), String>,
) -> bool {
    match done {
        Ok(_) => r is Ok,
        Err(reason) => r matches Err(report) && report@ == context + reason@,
    }
}

/// Turns what the keychain gave for a change into what the callers see.
pub fn change_result(done: Result<(), String>, context: &str) -> (r: Result<(), String>)
    ensures
        change_outcome(done, context@, r),
{
    match done {
        Ok(_) => Ok(()),
        Err(reason) => Err(String::from_str(context).concat(reason.as_str())),
    }
}

/// Stores a secret for a provider, replacing the one that was there.
pub fn store_api_key(provider: &str, api_key: &str) -> (r: Result<(), String>)
    ensures
        r matches Err(report) ==> is_lookup_report(report@, "Failed to store API key: "@),
{
    match open_entry(SERVICE_NAME, provider) {
        Ok(entry) => {
            let done = entry_set(&entry, api_key);
            let ghost given = done;
            let r = change_result(done, "Failed to store API key: ");
            proof {
                if r is Err {
                    assert(r->Err_0@ == "Failed to store API key: "@ + given->Err_0@);
                }
            }
            r
        },
        Err(reason) => {
            let report = keychain_error_message(reason.as_str());
            assert(report@ == keychain_error(reason@));
            Err(report)
        },
    }
}

/// What a removal gives, as the callers see it: whether there was an entry
/// to remove, or a report that begins with `context`.
pub open spec fn removal_outcome(
    done: Result<(), StoreFailure>,
    context: Seq<char>,
    r: Result<bool, String>,
) -> bool {
    match done {
        Ok(_) => r == Ok::<bool, String>(true),
        Err(StoreFailure::NoEntry) => r == Ok::<bool, String>(false),
        Err(StoreFailure::Other(reason)) => r matches Err(report) && report@ == context + reason@,
    }
}

/// Turns what the keychain gave for a removal into what the callers see: a
/// missing entry is no error.
pub fn removal_result(done: Result<(), StoreFailure>, context: &str) -> (r: Result<bool, String>)
    ensures
        removal_outcome(done, context@, r),
{
    match done {
        Ok(_) => Ok(true),
        Err(StoreFailure::NoEntry) => Ok(false),
        Err(StoreFailure::Other(reason)) => Err(String::from_str(context).concat(reason.as_str())),
    }
}

/// Removes the secret stored for a provider, and tells whether there was
/// one.
pub fn delete_api_key(provider: &str) -> (r: Result<bool, String>)
    ensures
        r matches Err(report) ==> is_lookup_report(report@, "Failed to delete API key: "@),
{
    match open_entry(SERVICE_NAME, provider) {
        Ok(entry) => {
            let done = entry_delete(&entry);
            let ghost given = done;
            let r = removal_result(done, "Failed to delete API key: ");
            proof {
                if r is Err {
                    assert(r->Err_0@ == "Failed to delete API key: "@ + given->Err_0->Other_0@);
                }
            }
            r
        },
        Err(reason) => {
            let report = keychain_error_message(reason.as_str());
            assert(report@ == keychain_error(reason@));
            Err(report)
        },
    }
}

/// Whether a lookup found a secret.
pub fn presence(found: Result<Option<String>, String>) -> (r: Result<bool, String>)
    ensures
        match found {
            Ok(secret) => r == Ok::<bool, String>(secret is Some),
            Err(report) => r == Err::<bool, String>(report),
        },
{
    match found {
        Ok(secret) => Ok(secret.is_some()),
        Err(report) => Err(report),
    }
}

/// Whether a secret is stored for a provider.
pub fn has_api_key(provider: &str) -> (r: Result<bool, String>)
    ensures
        r matches Err(report) ==> is_lookup_report(report@, "Failed to check API key: "@),
{
    match open_entry(SERVICE_NAME, provider) {
        Ok(entry) => {
            let found = entry_get(&entry);
            let ghost given = found;
            let looked = lookup_result(found, "Failed to check API key: ");
            proof {
                if looked is Err {
                    assert(looked->Err_0@ == "Failed to check API key: "@ + given->Err_0->Other_0@);
                }
            }
            presence(looked)
        },
        Err(reason) => {
            let report = keychain_error_message(reason.as_str());
            assert(report@ == keychain_error(reason@));
            Err(report)
        },
    }
}

/// The number of bytes that a character takes in UTF-8.
pub open spec fn utf8_len(c: char) -> int {
    if (c as u32) < 0x80 {
        1
    } else if (c as u32) < 0x800 {
        2
    } else if (c as u32) < 0x10000 {
        3
    } else {
        4
    }
}

/// How many leading characters of a text fit into `budget` bytes of UTF-8.
pub open spec fn fitting_chars(text: Seq<char>, budget: int) -> int
    decreases text.len(),
{
    if text.len() == 0 || utf8_len(text[0]) > budget {
        0
    } else {
        1 + fitting_chars(text.drop_first(), budget - utf8_len(text[0]))
    }
}

/// What is shown of a secret: its leading characters, as many as fit into
/// eight bytes, and three dots.
pub open spec fn key_prefix_of(key: Seq<char>) -> Seq<char> {
    key.subrange(0, fitting_chars(key, 8)) + "..."@
}

/// The number of bytes that a character takes in UTF-8.
pub fn char_width(c: char) -> (w: usize)
    ensures
        w as int == utf8_len(c),
        1 <= w <= 4,
{
    let v: u32 = c as u32;
    if v < 0x80 {
        1
    } else if v < 0x800 {
        2
    } else if v < 0x10000 {
        3
    } else {
        4
    }
}

/// What is shown of a secret.
pub fn key_prefix(key: &str) -> (r: String)
    ensures
        r@ == key_prefix_of(key@),
{
    let n = key.unicode_len();
    let mut count: usize = 0;
    let mut budget: usize = 8;
    let mut open = true;
    assert(key@.subrange(0, n as int) =~= key@);
    while open && count < n
        invariant
            n == key@.len(),
            count <= n,
            budget <= 8,
            fitting_chars(key@, 8) == count + fitting_chars(
                key@.subrange(count as int, n as int),
                budget as int,
            ),
            !open ==> fitting_chars(key@.subrange(count as int, n as int), budget as int) == 0,
        decreases (if open { 1int } else { 0int }), n - count,
    {
        let c = key.get_char(count);
        let width = char_width(c);
        let ghost rest = key@.subrange(count as int, n as int);
        assert(rest[0] == c);
        assert(rest.drop_first() =~= key@.subrange(count as int + 1, n as int));
        if width > budget {
            open = false;
        } else {
            budget = budget - width;
            count = count + 1;
        }
    }
    let head = key.substring_char(0, count);
    String::from_str(head).concat("...")
}

/// The providers for which a secret can be stored.
pub open spec fn provider_names() -> Seq<Seq<char>> {
    seq![
        "anthropic"@,
        "openai"@,
        "google"@,
        "xai"@,
        "ollama"@,
        "deepseek"@,
        "zai"@,
        "azure-foundry"@,
        "bedrock"@,
        "litellm"@,
        "openrouter"@,
        "custom"@,
    ]
}

/// The texts of a run of names.
pub open spec fn name_texts(names: Seq<&'static str>) -> Seq<Seq<char>> {
    Seq::new(names.len(), |i: int| names[i]@)
}

/// The providers for which a secret can be stored.
pub fn providers() -> (out: Vec<&'static str>)
    ensures
        name_texts(out@) == provider_names(),
{
    let mut out: Vec<&'static str> = Vec::new();
    out.push("anthropic");
    out.push("openai");
    out.push("google");
    out.push("xai");
    out.push("ollama");
    out.push("deepseek");
    out.push("zai");
    out.push("azure-foundry");
    out.push("bedrock");
    out.push("litellm");
    out.push("openrouter");
    out.push("custom");
    assert(name_texts(out@) =~= provider_names());
    out
}

/// What is shown of a looked-up secret.
pub open spec fn prefix_outcome(
    found: Result<Option<String>, String>,
    r: Result<Option<String>, String>,
) -> bool {
    match found {
        Ok(Some(key)) => r matches Ok(Some(prefix)) && prefix@ == key_prefix_of(key@),
        Ok(None) => r == Ok::<Option<String>, String>(None),
        Err(report) => r == Err::<Option<String>, String>(report),
    }
}

/// What is shown of a looked-up secret: its prefix where there is a secret.
pub fn prefix_result(found: Result<Option<String>, String>) -> (r: Result<Option<String>, String>)
    ensures
        prefix_outcome(found, r),
{
    match found {
        Ok(Some(key)) => Ok(Some(key_prefix(key.as_str()))),
        Ok(None) => Ok(None),
        Err(report) => Err(report),
    }
}

/// What is shown of the secret stored for a provider; `None` where none is
/// stored.
pub fn get_key_prefix(provider: &str) -> (r: Result<Option<String>, String>)
    ensures
        r matches Ok(Some(prefix)) ==> exists|key: Seq<char>| prefix@ == key_prefix_of(key),
        r matches Err(report) ==> is_lookup_report(report@, "Failed to get API key: "@),
{
    let found = get_api_key(provider);
    let ghost given = found;
    let r = prefix_result(found);
    proof {
        if r is Ok && r->Ok_0 is Some {
            assert(r->Ok_0->Some_0@ == key_prefix_of(given->Ok_0->Some_0@));
        }
    }
    r
}

/// Whether a secret is stored for a provider, and what is shown of it.
#[derive(Debug)]
pub struct ApiKeyStatus {
    pub exists: bool,
    pub prefix: Option<String>,
}

/// Whether a status is one that a look at the keychain can give: nothing is
/// shown of a secret that is not there, and what is shown is the prefix of
/// some secret.
pub open spec fn is_status(status: ApiKeyStatus) -> bool {
    &&& status.prefix is Some ==> status.exists
    &&& status.prefix matches Some(prefix) ==> exists|key: Seq<char>| prefix@ == key_prefix_of(key)
}

/// The status of one provider, from whether a secret is stored and, where
/// one is, from what is shown of it.
pub fn status_from(exists: bool, prefix: Option<String>) -> (r: ApiKeyStatus)
    ensures
        r.exists == exists,
        r.prefix == (if exists { prefix } else { None }),
{
    ApiKeyStatus { exists, prefix: if exists { prefix } else { None } }
}

/// What the keychain gave for one provider of a survey: the check for a
/// secret failed, there is no secret, or there is one and this is what the
/// lookup of its prefix gave.
#[derive(Debug)]
pub enum StatusLookup {
    CheckFailed(String),
    Absent,
    Present(Result<Option<String>, String>),
}

/// Whether a lookup of a survey is a failure of the keychain.
pub open spec fn lookup_fails(lookup: StatusLookup) -> bool {
    match lookup {
        StatusLookup::CheckFailed(_) => true,
        StatusLookup::Absent => false,
        StatusLookup::Present(found) => found is Err,
    }
}

/// The keychain's report in a failed lookup of a survey.
pub open spec fn failure_report(lookup: StatusLookup) -> Seq<char> {
    match lookup {
        StatusLookup::CheckFailed(report) => report@,
        StatusLookup::Present(Err(report)) => report@,
        _ => Seq::empty(),
    }
}

/// Whether a status is the one that a lookup without failure gives: no
/// secret and nothing shown, or a secret and its prefix as it was looked
/// up.
pub open spec fn status_shows(status: ApiKeyStatus, lookup: StatusLookup) -> bool {
    match lookup {
        StatusLookup::Absent => !status.exists && status.prefix is None,
        StatusLookup::Present(Ok(prefix)) => status.exists && status.prefix == prefix,
        _ => false,
    }
}

/// Whether `place` is where a survey fails: at the first failed lookup.
pub open spec fn survey_fails_at(entries: Seq<(String, StatusLookup)>, place: int) -> bool {
    &&& 0 <= place < entries.len()
    &&& lookup_fails(entries[place].1)
    &&& forall|j: int| 0 <= j < place ==> !lookup_fails((#[trigger] entries[j]).1)
}

/// What a survey gives for the lookups of its providers: the status of
/// every provider, under its name and in order, where no lookup failed, and
/// else the report of the first lookup that failed.
pub open spec fn survey_outcome(
    entries: Seq<(String, StatusLookup)>,
    r: Result<Vec<(String, ApiKeyStatus)>, String>,
) -> bool {
    match r {
        Ok(statuses) => {
            &&& statuses@.len() == entries.len()
            &&& forall|i: int|
                0 <= i < entries.len() ==> (#[trigger] statuses@[i]).0@ == entries[i].0@
                    && status_shows(statuses@[i].1, entries[i].1)
        },
        Err(report) => exists|place: int|
            survey_fails_at(entries, place) && report@ == failure_report(
                (#[trigger] entries[place]).1,
            ),
    }
}

/// Makes the survey out of the lookups of its providers.
pub fn survey(entries: &Vec<(String, StatusLookup)>) -> (r: Result<
    Vec<(String, ApiKeyStatus)>,
    String,
>)
    ensures
        survey_outcome(entries@, r),
{
    let mut statuses: Vec<(String, ApiKeyStatus)> = Vec::new();
    let mut i: usize = 0;
    while i < entries.len()
        invariant
            i <= entries.len(),
            statuses@.len() == i,
            forall|k: int|
                0 <= k < i ==> (#[trigger] statuses@[k]).0@ == entries@[k].0@ && status_shows(
                    statuses@[k].1,
                    entries@[k].1,
                ),
            forall|j: int| 0 <= j < i ==> !lookup_fails((#[trigger] entries@[j]).1),
        decreases entries.len() - i,
    {
        let status = match &entries[i].1 {
            StatusLookup::CheckFailed(report) => {
                assert(survey_fails_at(entries@, i as int));
                return Err(report.clone());
            },
            StatusLookup::Absent => status_from(false, None),
            StatusLookup::Present(Ok(prefix)) => status_from(true, prefix.clone()),
            StatusLookup::Present(Err(report)) => {
                assert(survey_fails_at(entries@, i as int));
                return Err(report.clone());
            },
        };
        statuses.push((entries[i].0.clone(), status));
        i = i + 1;
    }
    Ok(statuses)
}

/// Whether a lookup of a survey is such as the keychain can give: a failure
/// is reported in the keychain's words, and a prefix is that of some
/// secret.
pub open spec fn lookup_well_formed(lookup: StatusLookup) -> bool {
    match lookup {
        StatusLookup::CheckFailed(report) => is_lookup_report(
            report@,
            "Failed to check API key: "@,
        ),
        StatusLookup::Absent => true,
        StatusLookup::Present(Err(report)) => is_lookup_report(report@, "Failed to get API key: "@),
        StatusLookup::Present(Ok(Some(prefix))) => exists|key: Seq<char>|
            prefix@ == key_prefix_of(key),
        StatusLookup::Present(Ok(None)) => true,
    }
}

/// Asks the keychain about one provider: whether it holds a secret, and,
/// only where it does, for what is shown of the secret.
fn look_up_status(provider: &str) -> (r: StatusLookup)
    ensures
        lookup_well_formed(r),
{
    match has_api_key(provider) {
        Ok(true) => StatusLookup::Present(get_key_prefix(provider)),
        Ok(false) => StatusLookup::Absent,
        Err(report) => StatusLookup::CheckFailed(report),
    }
}

/// Whether a lookup of a survey is a failure of the keychain.
pub fn has_failed(lookup: &StatusLookup) -> (r: bool)
    ensures
        r == lookup_fails(*lookup),
{
    match lookup {
        StatusLookup::CheckFailed(_) => true,
        StatusLookup::Absent => false,
        StatusLookup::Present(found) => found.is_err(),
    }
}

/// Asks the keychain about the providers in order, and stops after the
/// first lookup that fails.
fn survey_lookups(names: &Vec<&'static str>) -> (entries: Vec<(String, StatusLookup)>)
    ensures
        entries@.len() <= names@.len(),
        forall|k: int|
            0 <= k < entries@.len() ==> (#[trigger] entries@[k]).0@ == names@[k]@
                && lookup_well_formed(entries@[k].1),
        forall|k: int| 0 <= k < entries@.len() - 1 ==> !lookup_fails((#[trigger] entries@[k]).1),
        entries@.len() < names@.len() ==> entries@.len() > 0 && lookup_fails(entries@.last().1),
{
    let mut entries: Vec<(String, StatusLookup)> = Vec::new();
    let mut i: usize = 0;
    let mut failed = false;
    while !failed && i < names.len()
        invariant
            i <= names.len(),
            entries@.len() == i,
            forall|k: int|
                0 <= k < i ==> (#[trigger] entries@[k]).0@ == names@[k]@ && lookup_well_formed(
                    entries@[k].1,
                ),
            forall|k: int| 0 <= k < i - 1 ==> !lookup_fails((#[trigger] entries@[k]).1),
            !failed ==> forall|k: int| 0 <= k < i ==> !lookup_fails((#[trigger] entries@[k]).1),
            failed ==> i > 0 && lookup_fails(entries@.last().1),
        decreases (if failed { 0int } else { 1int }), names.len() - i,
    {
        let lookup = look_up_status(names[i]);
        failed = has_failed(&lookup);
        entries.push((String::from_str(names[i]), lookup));
        i = i + 1;
    }
    entries
}

/// No provider occurs twice in a survey.
pub open spec fn distinct_providers(statuses: Seq<(String, ApiKeyStatus)>) -> bool {
    forall|i: int, j: int|
        0 <= i < j < statuses.len() ==> (#[trigger] statuses[i]).0@ != (#[trigger] statuses[j]).0@
}

/// The names of the providers differ from one another.
pub proof fn lemma_provider_names_distinct()
    ensures
        forall|i: int, j: int|
            0 <= i < j < provider_names().len() ==> provider_names()[i] != provider_names()[j],
{
    reveal_strlit("anthropic");
    reveal_strlit("openai");
    reveal_strlit("google");
    reveal_strlit("xai");
    reveal_strlit("ollama");
    reveal_strlit("deepseek");
    reveal_strlit("zai");
    reveal_strlit("azure-foundry");
    reveal_strlit("bedrock");
    reveal_strlit("litellm");
    reveal_strlit("openrouter");
    reveal_strlit("custom");
    let names = provider_names();
    assert(names[0].len() == 9);
    assert(names[1].len() == 6 && names[1][0] == 'o' && names[1][1] == 'p');
    assert(names[2].len() == 6 && names[2][0] == 'g');
    assert(names[3].len() == 3 && names[3][0] == 'x');
    assert(names[4].len() == 6 && names[4][0] == 'o' && names[4][1] == 'l');
    assert(names[5].len() == 8);
    assert(names[6].len() == 3 && names[6][0] == 'z');
    assert(names[7].len() == 13);
    assert(names[8].len() == 7 && names[8][0] == 'b');
    assert(names[9].len() == 7 && names[9][0] == 'l');
    assert(names[10].len() == 10);
    assert(names[11].len() == 6 && names[11][0] == 'c');
}

/// The status of every provider, in the order of [`providers`]: the
/// keychain is asked about one provider after the other, and [`survey`]
/// makes the result out of what it gave. The first failure of the keychain
/// ends the survey.
pub fn get_all_api_key_status() -> (r: Result<Vec<(String, ApiKeyStatus)>, String>)
    ensures
        r matches Ok(statuses) ==> {
            &&& statuses@.len() == provider_names().len()
            &&& forall|i: int|
                0 <= i < statuses@.len() ==> (#[trigger] statuses@[i]).0@ == provider_names()[i]
                    && is_status(statuses@[i].1)
            &&& distinct_providers(statuses@)
        },
        r matches Err(report) ==> is_lookup_report(report@, "Failed to check API key: "@)
            || is_lookup_report(report@, "Failed to get API key: "@),
{
    let names = providers();
    let entries = survey_lookups(&names);
    let r = survey(&entries);
    proof {
        lemma_provider_names_distinct();
        if r is Ok {
            let statuses = r->Ok_0;
            if entries@.len() < names@.len() {
                assert(lookup_fails(entries@[entries@.len() - 1].1));
                assert(status_shows(
                    statuses@[entries@.len() - 1].1,
                    entries@[entries@.len() - 1].1,
                ));
            }
            assert forall|i: int| 0 <= i < statuses@.len() implies (#[trigger] statuses@[i]).0@
                == provider_names()[i] && is_status(statuses@[i].1) by {
                assert(entries@[i].0@ == names@[i]@);
                assert(name_texts(names@)[i] == names@[i]@);
                assert(lookup_well_formed(entries@[i].1));
                assert(status_shows(statuses@[i].1, entries@[i].1));
            }
        } else {
            let report = r->Err_0;
            let place = choose|place: int|
                survey_fails_at(entries@, place) && report@ == failure_report(
                    (#[trigger] entries@[place]).1,
                );
            assert(lookup_well_formed(entries@[place].1));
        }
    }
    r
}

/// Whether a check for a secret found none.
pub open spec fn found_nothing(lookup: Result<bool, String>) -> bool {
    lookup matches Ok(found) && !found
}

/// Whether a check for a secret failed with a given report.
pub open spec fn fails_with(lookup: Result<bool, String>, report: Seq<char>) -> bool {
    lookup matches Err(given) && given@ == report
}

/// Whether `place` is where a search is decided: at the first check that
/// found a secret or failed.
pub open spec fn decided_at(lookups: Seq<Result<bool, String>>, place: int) -> bool {
    &&& 0 <= place < lookups.len()
    &&& !found_nothing(lookups[place])
    &&& forall|j: int| 0 <= j < place ==> found_nothing(#[trigger] lookups[j])
}

/// What a search gives for the checks of its providers: that a secret is
/// stored where the first check that did not come back empty found one,
/// the report of that check where it failed, and that none is stored
/// where every check came back empty.
pub open spec fn search_outcome(lookups: Seq<Result<bool, String>>, r: Result<bool, String>) -> bool {
    match r {
        Ok(true) => exists|place: int|
            decided_at(lookups, place) && (#[trigger] lookups[place]) is Ok,
        Ok(false) => forall|j: int| 0 <= j < lookups.len() ==> found_nothing(#[trigger] lookups[j]),
        Err(report) => exists|place: int|
            decided_at(lookups, place) && fails_with(#[trigger] lookups[place], report@),
    }
}

/// Makes the answer of a search out of the checks of its providers.
pub fn any_found(lookups: &Vec<Result<bool, String>>) -> (r: Result<bool, String>)
    ensures
        search_outcome(lookups@, r),
{
    let mut i: usize = 0;
    while i < lookups.len()
        invariant
            i <= lookups.len(),
            forall|j: int| 0 <= j < i ==> found_nothing(#[trigger] lookups@[j]),
        decreases lookups.len() - i,
    {
        match &lookups[i] {
            Ok(true) => {
                assert(decided_at(lookups@, i as int));
                return Ok(true);
            },
            Ok(false) => {},
            Err(report) => {
                assert(decided_at(lookups@, i as int));
                return Err(report.clone());
            },
        }
        i = i + 1;
    }
    Ok(false)
}

/// Whether a check for a secret came back empty.
pub fn is_undecided(lookup: &Result<bool, String>) -> (r: bool)
    ensures
        r == found_nothing(*lookup),
{
    match lookup {
        Ok(found) => !*found,
        Err(_) => false,
    }
}

/// Checks the providers for a secret in order, and stops after the first
/// check that found one or failed.
fn check_until_decided(names: &Vec<&'static str>) -> (lookups: Vec<Result<bool, String>>)
    ensures
        lookups@.len() <= names@.len(),
        forall|k: int|
            0 <= k < lookups@.len() ==> ((#[trigger] lookups@[k]) matches Err(report)
                ==> is_lookup_report(report@, "Failed to check API key: "@)),
        forall|k: int| 0 <= k < lookups@.len() - 1 ==> found_nothing(#[trigger] lookups@[k]),
        lookups@.len() < names@.len() ==> lookups@.len() > 0 && !found_nothing(lookups@.last()),
{
    let mut lookups: Vec<Result<bool, String>> = Vec::new();
    let mut i: usize = 0;
    let mut decided = false;
    while !decided && i < names.len()
        invariant
            i <= names.len(),
            lookups@.len() == i,
            forall|k: int|
                0 <= k < i ==> ((#[trigger] lookups@[k]) matches Err(report) ==> is_lookup_report(
                    report@,
                    "Failed to check API key: "@,
                )),
            forall|k: int| 0 <= k < i - 1 ==> found_nothing(#[trigger] lookups@[k]),
            !decided ==> forall|k: int| 0 <= k < i ==> found_nothing(#[trigger] lookups@[k]),
            decided ==> i > 0 && !found_nothing(lookups@.last()),
        decreases (if decided { 0int } else { 1int }), names.len() - i,
    {
        let lookup = has_api_key(names[i]);
        decided = !is_undecided(&lookup);
        lookups.push(lookup);
        i = i + 1;
    }
    lookups
}

/// Whether a secret is stored for any provider: the providers are checked
/// in the order of [`providers`], and [`any_found`] makes the answer out of
/// the checks. The first check that finds a secret or fails ends the
/// search.
pub fn has_any_api_key() -> (r: Result<bool, String>)
    ensures
        r matches Err(report) ==> is_lookup_report(report@, "Failed to check API key: "@),
{
    let names = providers();
    let lookups = check_until_decided(&names);
    let r = any_found(&lookups);
    proof {
        if r is Err {
            let report = r->Err_0;
            let place = choose|place: int|
                decided_at(lookups@, place) && fails_with(#[trigger] lookups@[place], report@);
            assert(lookups@[place] is Err);
        }
    }
    r
}

/// Removes the secret of every provider. A failure of the keychain is
/// passed over.
pub fn clear_all_api_keys() -> (r: Result<(), String>)
    ensures
        r is Ok,
{
    let names = providers();
    let mut i: usize = 0;
    while i < names.len()
        invariant
            i <= names.len(),
        decreases names.len() - i,
    {
        let _ = delete_api_key(names[i]);
        i = i + 1;
    }
    Ok(())
}

/// Stores the structured credentials, given as JSON text, under their
/// provider.
pub fn store_bedrock_credentials(credentials: &str) -> (r: Result<(), String>)
    ensures
        r matches Err(report) ==> is_lookup_report(report@, "Failed to store API key: "@),
{
    store_api_key("bedrock", credentials)
}

/// What a lookup of the structured credentials gives: the credentials
/// where a text is stored that holds them, `None` where nothing is stored
/// and where the stored text does not hold them.
pub open spec fn credentials_outcome(
    found: Result<Option<String>, String>,
    r: Result<Option<BedrockCredentials>, String>,
) -> bool {
    match found {
        Ok(Some(stored)) => match credentials_of_text(stored@) {
            Some(model) => r matches Ok(Some(credentials)) && credentials@ == model,
            None => r == Ok::<Option<BedrockCredentials>, String>(None),
        },
        Ok(None) => r == Ok::<Option<BedrockCredentials>, String>(None),
        Err(report) => r == Err::<Option<BedrockCredentials>, String>(report),
    }
}

/// Reads the structured credentials out of what a lookup gave.
pub fn credentials_result(found: Result<Option<String>, String>) -> (r: Result<
    Option<BedrockCredentials>,
    String,
>)
    ensures
        credentials_outcome(found, r),
{
    match found {
        Ok(Some(stored)) => Ok(BedrockCredentials::from_json_text(stored.as_str())),
        Ok(None) => Ok(None),
        Err(report) => Err(report),
    }
}

/// Retrieves the structured credentials; `None` where none are stored or
/// the stored text does not hold them.
pub fn get_bedrock_credentials() -> (r: Result<Option<BedrockCredentials>, String>)
    ensures
        r matches Ok(Some(credentials)) ==> read_from_text(credentials@),
        r matches Err(report) ==> is_lookup_report(report@, "Failed to get API key: "@),
{
    let found = get_api_key("bedrock");
    let ghost given = found;
    let r = credentials_result(found);
    proof {
        if r is Ok && r->Ok_0 is Some {
            let stored = given->Ok_0->Some_0@;
            assert(credentials_of_text(stored) == Some(r->Ok_0->Some_0@));
        }
    }
    r
}

/// What is known of a stored secret without showing it.
#[derive(Debug)]
pub struct ApiKeyInfo {
    pub id: String,
    pub provider: String,
    pub label: Option<String>,
    pub created_at: String,
    /// The first characters of the secret, for display.
    pub key_prefix: Option<String>,
}

/// Whether structured credentials are what some JSON text holds: the only
/// credentials that a lookup hands out are those read from the stored text.
pub open spec fn read_from_text(credentials: CredentialsModel) -> bool {
    exists|text: Seq<char>| #[trigger] credentials_of_text(text) == Some(credentials)
}

} // verus!
