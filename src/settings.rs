//! The application's settings and their defaults.

use vstd::prelude::*;

use crate::consumer::same_text;
use crate::text::{
    decimal_text, lemma_parse_decimal, parse_unsigned, parsed_unsigned, u16_text, u32_text,
};

verus! {

/// The application's settings.
#[derive(Clone, Debug)]
pub struct Settings {
    pub api_key: String,
    pub output_dir: String,
    pub sync_start_date: String,
    pub mq_host: String,
    pub mq_port: u16,
    pub mq_username: String,
    pub mq_password: String,
    /// Whether the consumer starts by itself.
    pub mq_consumer_enabled: bool,
    /// How many translate tasks may run at once.
    pub mq_batch_size: u32,
    /// The language that tickets are translated into ("cn", "en", ...).
    pub translation_lang: String,
}

/// The port of a broker on its standard AMQP port.
pub const DEFAULT_MQ_PORT: u16 = 5672;

/// The default concurrency limit of the translate consumer.
pub const DEFAULT_BATCH_SIZE: u32 = 5;

/// `s` holds the default settings.
pub open spec fn is_default_settings(s: Settings) -> bool {
    &&& s.api_key@ == Seq::<char>::empty()
    &&& s.output_dir@ == "data"@
    &&& s.sync_start_date@ == "2025-01"@
    &&& s.mq_host@ == "localhost"@
    &&& s.mq_port == DEFAULT_MQ_PORT
    &&& s.mq_username@ == "guest"@
    &&& s.mq_password@ == "guest"@
    &&& !s.mq_consumer_enabled
    &&& s.mq_batch_size == DEFAULT_BATCH_SIZE
    &&& s.translation_lang@ == "cn"@
}

impl Default for Settings {
    fn default() -> (r: Settings)
        ensures
            is_default_settings(r),
    {
        Settings {
            api_key: String::new(),
            output_dir: String::from_str("data"),
            sync_start_date: String::from_str("2025-01"),
            mq_host: String::from_str("localhost"),
            mq_port: DEFAULT_MQ_PORT,
            mq_username: String::from_str("guest"),
            mq_password: String::from_str("guest"),
            mq_consumer_enabled: false,
            mq_batch_size: DEFAULT_BATCH_SIZE,
            translation_lang: String::from_str("cn"),
        }
    }
}

impl Settings {
    /// The settings that the settings form saves: its fields, with the
    /// consumer's own settings (`mq_consumer_enabled`, `mq_batch_size`) kept
    /// from `existing`.
    pub fn from_form(
        existing: &Settings,
        api_key: String,
        output_dir: String,
        sync_start_date: String,
        mq_host: String,
        mq_port: u16,
        mq_username: String,
        mq_password: String,
        translation_lang: String,
    ) -> (r: Settings)
        ensures
            r == (Settings {
                api_key,
                output_dir,
                sync_start_date,
                mq_host,
                mq_port,
                mq_username,
                mq_password,
                mq_consumer_enabled: existing.mq_consumer_enabled,
                mq_batch_size: existing.mq_batch_size,
                translation_lang,
            }),
    {
        Settings {
            api_key,
            output_dir,
            sync_start_date,
            mq_host,
            mq_port,
            mq_username,
            mq_password,
            mq_consumer_enabled: existing.mq_consumer_enabled,
            mq_batch_size: existing.mq_batch_size,
            translation_lang,
        }
    }
}


/// The keys under which settings are stored, in the order they are saved.
pub open spec fn setting_keys() -> Seq<Seq<char>> {
    seq![
        "api_key"@,
        "output_dir"@,
        "sync_start_date"@,
        "mq_host"@,
        "mq_port"@,
        "mq_username"@,
        "mq_password"@,
        "mq_consumer_enabled"@,
        "mq_batch_size"@,
        "translation_lang"@,
    ]
}

/// A stored port: the number it holds, or the standard port if it holds
/// none that fits.
pub open spec fn stored_port(v: Seq<char>) -> u16 {
    match parsed_unsigned(v, u16::MAX as nat) {
        Some(n) => n as u16,
        None => DEFAULT_MQ_PORT,
    }
}

/// A stored concurrency limit: the number it holds, or the default.
pub open spec fn stored_batch_size(v: Seq<char>) -> u32 {
    match parsed_unsigned(v, u32::MAX as nat) {
        Some(n) => n as u32,
        None => DEFAULT_BATCH_SIZE,
    }
}

/// `s` after the stored value `value` of `key` is read into it; a key that
/// names no setting changes nothing.
pub open spec fn with_stored(s: Settings, key: Seq<char>, value: String) -> Settings {
    if key == "api_key"@ {
        Settings { api_key: value, ..s }
    } else if key == "output_dir"@ {
        Settings { output_dir: value, ..s }
    } else if key == "sync_start_date"@ {
        Settings { sync_start_date: value, ..s }
    } else if key == "mq_host"@ {
        Settings { mq_host: value, ..s }
    } else if key == "mq_port"@ {
        Settings { mq_port: stored_port(value@), ..s }
    } else if key == "mq_username"@ {
        Settings { mq_username: value, ..s }
    } else if key == "mq_password"@ {
        Settings { mq_password: value, ..s }
    } else if key == "mq_consumer_enabled"@ {
        Settings { mq_consumer_enabled: value@ == "true"@, ..s }
    } else if key == "mq_batch_size"@ {
        Settings { mq_batch_size: stored_batch_size(value@), ..s }
    } else if key == "translation_lang"@ {
        Settings { translation_lang: value, ..s }
    } else {
        s
    }
}

/// The text that a setting is stored as.
pub open spec fn stored_value(s: Settings, k: int) -> Seq<char> {
    if k == 0 {
        s.api_key@
    } else if k == 1 {
        s.output_dir@
    } else if k == 2 {
        s.sync_start_date@
    } else if k == 3 {
        s.mq_host@
    } else if k == 4 {
        decimal_text(s.mq_port as int)
    } else if k == 5 {
        s.mq_username@
    } else if k == 6 {
        s.mq_password@
    } else if k == 7 {
        if s.mq_consumer_enabled {
            "true"@
        } else {
            "false"@
        }
    } else if k == 8 {
        decimal_text(s.mq_batch_size as int)
    } else {
        s.translation_lang@
    }
}

impl Settings {
    /// Reads the stored value of `key` into the settings: texts as they are,
    /// the port and the concurrency limit as numbers (their defaults when
    /// the text is no number that fits), and the auto-start flag as "true".
    pub fn apply_stored(&mut self, key: &str, value: String)
        ensures
            *final(self) == with_stored(*old(self), key@, value),
    {
        if same_text(key, "api_key") {
            self.api_key = value;
        } else if same_text(key, "output_dir") {
            self.output_dir = value;
        } else if same_text(key, "sync_start_date") {
            self.sync_start_date = value;
        } else if same_text(key, "mq_host") {
            self.mq_host = value;
        } else if same_text(key, "mq_port") {
            self.mq_port = match parse_unsigned(value.as_str(), u16::MAX as u64) {
                Some(n) => n as u16,
                None => DEFAULT_MQ_PORT,
            };
        } else if same_text(key, "mq_username") {
            self.mq_username = value;
        } else if same_text(key, "mq_password") {
            self.mq_password = value;
        } else if same_text(key, "mq_consumer_enabled") {
            self.mq_consumer_enabled = same_text(value.as_str(), "true");
        } else if same_text(key, "mq_batch_size") {
            self.mq_batch_size = match parse_unsigned(value.as_str(), u32::MAX as u64) {
                Some(n) => n as u32,
                None => DEFAULT_BATCH_SIZE,
            };
        } else if same_text(key, "translation_lang") {
            self.translation_lang = value;
        }
    }

    /// The settings as stored key-value pairs, in the order of
    /// `setting_keys`.
    pub fn stored_pairs(&self) -> (r: Vec<(String, String)>)
        ensures
            r@.len() == setting_keys().len(),
            forall|k: int|
                0 <= k < r@.len() ==> (#[trigger] r@[k]).0@ == setting_keys()[k] && r@[k].1@
                    == stored_value(*self, k),
    {
        let mut r: Vec<(String, String)> = Vec::new();
        r.push((String::from_str("api_key"), self.api_key.clone()));
        r.push((String::from_str("output_dir"), self.output_dir.clone()));
        r.push((String::from_str("sync_start_date"), self.sync_start_date.clone()));
        r.push((String::from_str("mq_host"), self.mq_host.clone()));
        r.push((String::from_str("mq_port"), u16_text(self.mq_port)));
        r.push((String::from_str("mq_username"), self.mq_username.clone()));
        r.push((String::from_str("mq_password"), self.mq_password.clone()));
        let enabled = if self.mq_consumer_enabled {
            String::from_str("true")
        } else {
            String::from_str("false")
        };
        r.push((String::from_str("mq_consumer_enabled"), enabled));
        r.push((String::from_str("mq_batch_size"), u32_text(self.mq_batch_size)));
        r.push((String::from_str("translation_lang"), self.translation_lang.clone()));
        r
    }
}


/// Two settings hold the same texts and the same values.
pub open spec fn same_settings(a: Settings, b: Settings) -> bool {
    &&& a.api_key@ == b.api_key@
    &&& a.output_dir@ == b.output_dir@
    &&& a.sync_start_date@ == b.sync_start_date@
    &&& a.mq_host@ == b.mq_host@
    &&& a.mq_port == b.mq_port
    &&& a.mq_username@ == b.mq_username@
    &&& a.mq_password@ == b.mq_password@
    &&& a.mq_consumer_enabled == b.mq_consumer_enabled
    &&& a.mq_batch_size == b.mq_batch_size
    &&& a.translation_lang@ == b.translation_lang@
}

/// `b` after the stored values `values` are read into it, the k-th under the
/// k-th of `setting_keys`.
pub open spec fn load_all(b: Settings, values: Seq<String>) -> Settings
    decreases values.len(),
{
    if values.len() == 0 {
        b
    } else {
        with_stored(
            load_all(b, values.drop_last()),
            setting_keys()[values.len() - 1],
            values.last(),
        )
    }
}

/// Settings saved as their stored pairs and read back, into any settings
/// at all, come back the same.
pub proof fn lemma_saved_settings_load_back(s: Settings, b: Settings, values: Seq<String>)
    requires
        values.len() == setting_keys().len(),
        forall|k: int| 0 <= k < values.len() ==> #[trigger] values[k]@ == stored_value(s, k),
    ensures
        same_settings(load_all(b, values), s),
{
    reveal_strlit("api_key");
    reveal_strlit("output_dir");
    reveal_strlit("sync_start_date");
    reveal_strlit("mq_host");
    reveal_strlit("mq_port");
    reveal_strlit("mq_username");
    reveal_strlit("mq_password");
    reveal_strlit("mq_consumer_enabled");
    reveal_strlit("mq_batch_size");
    reveal_strlit("translation_lang");
    reveal_strlit("true");
    reveal_strlit("false");
    lemma_parse_decimal(s.mq_port as nat, u16::MAX as nat);
    lemma_parse_decimal(s.mq_batch_size as nat, u32::MAX as nat);
    let k = setting_keys();
    assert(k[0].len() == 7 && k[0][0] == 'a' && k[0][3] == '_' && k[0][4] == 'k');
    assert(k[1].len() == 10 && k[1][0] == 'o' && k[1][3] == 'p' && k[1][4] == 'u');
    assert(k[2].len() == 15 && k[2][0] == 's' && k[2][3] == 'c' && k[2][4] == '_');
    assert(k[3].len() == 7 && k[3][0] == 'm' && k[3][3] == 'h' && k[3][4] == 'o');
    assert(k[4].len() == 7 && k[4][0] == 'm' && k[4][3] == 'p' && k[4][4] == 'o');
    assert(k[5].len() == 11 && k[5][0] == 'm' && k[5][3] == 'u' && k[5][4] == 's');
    assert(k[6].len() == 11 && k[6][0] == 'm' && k[6][3] == 'p' && k[6][4] == 'a');
    assert(k[7].len() == 19 && k[7][0] == 'm' && k[7][3] == 'c' && k[7][4] == 'o');
    assert(k[8].len() == 13 && k[8][0] == 'm' && k[8][3] == 'b' && k[8][4] == 'a');
    assert(k[9].len() == 16 && k[9][0] == 't' && k[9][3] == 'n' && k[9][4] == 's');
    let v0 = values.take(0);
    let v1 = values.take(1);
    let v2 = values.take(2);
    let v3 = values.take(3);
    let v4 = values.take(4);
    let v5 = values.take(5);
    let v6 = values.take(6);
    let v7 = values.take(7);
    let v8 = values.take(8);
    let v9 = values.take(9);
    assert(v1.drop_last() =~= v0);
    assert(v2.drop_last() =~= v1);
    assert(v3.drop_last() =~= v2);
    assert(v4.drop_last() =~= v3);
    assert(v5.drop_last() =~= v4);
    assert(v6.drop_last() =~= v5);
    assert(v7.drop_last() =~= v6);
    assert(v8.drop_last() =~= v7);
    assert(v9.drop_last() =~= v8);
    assert(values.drop_last() =~= v9);
    let l1 = load_all(b, v1);
    let l2 = load_all(b, v2);
    let l3 = load_all(b, v3);
    let l4 = load_all(b, v4);
    let l5 = load_all(b, v5);
    let l6 = load_all(b, v6);
    let l7 = load_all(b, v7);
    let l8 = load_all(b, v8);
    let l9 = load_all(b, v9);
    let l10 = load_all(b, values);
    assert(l1.api_key@ == s.api_key@);
    assert(l2.output_dir@ == s.output_dir@ && l2.api_key == l1.api_key);
    assert(l3.sync_start_date@ == s.sync_start_date@);
    assert(l4.mq_host@ == s.mq_host@);
    assert(l5.mq_port == s.mq_port);
    assert(l6.mq_username@ == s.mq_username@);
    assert(l7.mq_password@ == s.mq_password@);
    assert(l8.mq_consumer_enabled == s.mq_consumer_enabled);
    assert(l9.mq_batch_size == s.mq_batch_size);
    assert(l10.translation_lang@ == s.translation_lang@);
}

} // verus!
