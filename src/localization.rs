//! User-facing strings in each supported language.

use vstd::prelude::*;

verus! {

/// Key and value models of a table of pairs.
pub open spec fn pair_models(entries: Seq<(String, String)>) -> Seq<(Seq<char>, Seq<char>)> {
    entries.map_values(|e: (String, String)| (e.0@, e.1@))
}

/// No two pairs share a key.
pub open spec fn keys_unique<V>(pairs: Seq<(Seq<char>, V)>) -> bool {
    forall|i: int, j: int|
        0 <= i < pairs.len() && 0 <= j < pairs.len() && i != j ==> #[trigger] pairs[i].0
            != #[trigger] pairs[j].0
}

/// The value paired with `key`, where some pair has that key.
pub open spec fn lookup<V>(pairs: Seq<(Seq<char>, V)>, key: Seq<char>) -> Option<V> {
    if exists|i: int| 0 <= i < pairs.len() && #[trigger] pairs[i].0 == key {
        let i = choose|i: int| 0 <= i < pairs.len() && #[trigger] pairs[i].0 == key;
        Some(pairs[i].1)
    } else {
        None
    }
}

/// With unique keys, the pair at `i` is the one found for its key.
pub proof fn lemma_lookup_at<V>(pairs: Seq<(Seq<char>, V)>, i: int)
    requires
        keys_unique(pairs),
        0 <= i < pairs.len(),
    ensures
        lookup(pairs, pairs[i].0) == Some(pairs[i].1),
{
    assert(0 <= i < pairs.len() && pairs[i].0 == pairs[i].0);
}

/// Sets the value of `key`, replacing the pair that has it or else
/// appending one, as a map's insert does.
pub fn insert_entry(entries: &mut Vec<(String, String)>, key: String, value: String)
    requires
        keys_unique(pair_models(old(entries)@)),
    ensures
        keys_unique(pair_models(final(entries)@)),
        lookup(pair_models(final(entries)@), key@) == Some(value@),
        forall|k: Seq<char>|
            k != key@ ==> #[trigger] lookup(pair_models(final(entries)@), k) == lookup(
                pair_models(old(entries)@),
                k,
            ),
{
    let ghost before = pair_models(entries@);
    let mut i: usize = 0;
    while i < entries.len()
        invariant
            i <= entries@.len(),
            before == pair_models(entries@),
            before == pair_models(old(entries)@),
            keys_unique(before),
            forall|j: int| 0 <= j < i ==> (#[trigger] before[j]).0 != key@,
        decreases entries@.len() - i,
    {
        assert(before[i as int].0 == entries@[i as int].0@);
        if entries[i].0 == key {
            let ghost kv = key@;
            let ghost vv = value@;
            entries.set(i, (key, value));
            proof {
                let after = pair_models(entries@);
                assert(after =~= before.update(i as int, (kv, vv)));
                assert(keys_unique(after)) by {
                    assert forall|a: int, b: int|
                        0 <= a < after.len() && 0 <= b < after.len() && a != b implies
                        #[trigger] after[a].0 != #[trigger] after[b].0 by {
                        assert(after[a].0 == before[a].0);
                        assert(after[b].0 == before[b].0);
                    }
                }
                lemma_lookup_at(after, i as int);
                assert forall|k: Seq<char>| k != kv implies #[trigger] lookup(after, k) == lookup(before, k) by {
                    if exists|j: int| 0 <= j < before.len() && #[trigger] before[j].0 == k {
                        let j = choose|j: int| 0 <= j < before.len() && #[trigger] before[j].0 == k;
                        lemma_lookup_at(before, j);
                        assert(j != i);
                        assert(after[j] == before[j]);
                        lemma_lookup_at(after, j);
                    } else {
                        assert(!exists|j: int| 0 <= j < after.len() && #[trigger] after[j].0 == k) by {
                            assert forall|j: int| 0 <= j < after.len() implies #[trigger] after[j].0 != k by {
                                assert(after[j].0 == before[j].0);
                            }
                        }
                    }
                }
            }
            return;
        }
        i = i + 1;
    }
    let ghost kv = key@;
    let ghost vv = value@;
    entries.push((key, value));
    proof {
        let after = pair_models(entries@);
        assert(after =~= before.push((kv, vv)));
        assert(keys_unique(after)) by {
            assert forall|a: int, b: int|
                0 <= a < after.len() && 0 <= b < after.len() && a != b implies #[trigger] after[a].0
                != #[trigger] after[b].0 by {
                if a < before.len() {
                    assert(after[a] == before[a]);
                }
                if b < before.len() {
                    assert(after[b] == before[b]);
                }
            }
        }
        lemma_lookup_at(after, before.len() as int);
        assert forall|k: Seq<char>| k != kv implies #[trigger] lookup(after, k) == lookup(before, k) by {
            if exists|j: int| 0 <= j < before.len() && #[trigger] before[j].0 == k {
                let j = choose|j: int| 0 <= j < before.len() && #[trigger] before[j].0 == k;
                lemma_lookup_at(before, j);
                assert(after[j] == before[j]);
                lemma_lookup_at(after, j);
            } else {
                assert(!exists|j: int| 0 <= j < after.len() && #[trigger] after[j].0 == k) by {
                    assert forall|j: int| 0 <= j < after.len() implies #[trigger] after[j].0 != k by {
                        if j < before.len() {
                            assert(after[j] == before[j]);
                        }
                    }
                }
            }
        }
    }
}

/// The strings of one language.
#[derive(Debug)]
pub struct LanguageTable {
    pub language: String,
    pub entries: Vec<(String, String)>,
}

/// The current language and the strings of every language.
#[derive(Debug)]
pub struct Localization {
    pub current_language: String,
    pub translations: Vec<LanguageTable>,
}

/// Each language with the models of its pairs.
pub open spec fn table_models(tables: Seq<LanguageTable>) -> Seq<(Seq<char>, Seq<(Seq<char>, Seq<char>)>)> {
    tables.map_values(|t: LanguageTable| (t.language@, pair_models(t.entries@)))
}

/// The text shown for `key` in `language`: its translation there, or the
/// key itself where there is none.
pub open spec fn translate(
    tables: Seq<(Seq<char>, Seq<(Seq<char>, Seq<char>)>)>,
    language: Seq<char>,
    key: Seq<char>,
) -> Seq<char> {
    match lookup(tables, language) {
        Some(pairs) => match lookup(pairs, key) {
            Some(v) => v,
            None => key,
        },
        None => key,
    }
}

impl Localization {
    /// The languages with their strings.
    pub open spec fn tables(&self) -> Seq<(Seq<char>, Seq<(Seq<char>, Seq<char>)>)> {
        table_models(self.translations@)
    }

    /// Languages are unique, and keys are unique within each language.
    pub open spec fn wf(&self) -> bool {
        &&& keys_unique(self.tables())
        &&& forall|i: int|
            0 <= i < self.tables().len() ==> keys_unique(#[trigger] self.tables()[i].1)
    }

    /// English and Turkish strings, with English current.
    pub fn new() -> (r: Localization)
        ensures
            r.wf(),
            r.current_language@ == "en"@,
            r.tables().len() == 2,
            r.tables()[0].0 == "en"@,
            r.tables()[1].0 == "tr"@,
    {
        let mut en: Vec<(String, String)> = Vec::new();
        insert_entry(&mut en, String::from_str("app_name"), String::from_str("Clean Master Privacy"));
        insert_entry(&mut en, String::from_str("scan"), String::from_str("Scan"));
        insert_entry(&mut en, String::from_str("optimize"), String::from_str("Optimize"));
        insert_entry(&mut en, String::from_str("privacy"), String::from_str("Privacy"));
        insert_entry(&mut en, String::from_str("settings"), String::from_str("Settings"));
        insert_entry(&mut en, String::from_str("about"), String::from_str("About"));
        insert_entry(&mut en, String::from_str("quit"), String::from_str("Quit"));
        insert_entry(&mut en, String::from_str("quick_scan"), String::from_str("Quick Scan"));
        insert_entry(&mut en, String::from_str("full_scan"), String::from_str("Full Scan"));
        insert_entry(&mut en, String::from_str("custom_scan"), String::from_str("Custom Scan"));
        insert_entry(&mut en, String::from_str("threats_found"), String::from_str("Threats Found"));
        insert_entry(&mut en, String::from_str("files_scanned"), String::from_str("Files Scanned"));
        insert_entry(&mut en, String::from_str("clean"), String::from_str("Clean"));
        insert_entry(&mut en, String::from_str("cancel"), String::from_str("Cancel"));
        insert_entry(&mut en, String::from_str("apply"), String::from_str("Apply"));
        insert_entry(&mut en, String::from_str("close"), String::from_str("Close"));
        let mut tr: Vec<(String, String)> = Vec::new();
        insert_entry(&mut tr, String::from_str("app_name"), String::from_str("Clean Master Privacy"));
        insert_entry(&mut tr, String::from_str("scan"), String::from_str("Tara"));
        insert_entry(&mut tr, String::from_str("optimize"), String::from_str("Optimize Et"));
        insert_entry(&mut tr, String::from_str("privacy"), String::from_str("Gizlilik"));
        insert_entry(&mut tr, String::from_str("settings"), String::from_str("Ayarlar"));
        insert_entry(&mut tr, String::from_str("about"), String::from_str("Hakkında"));
        insert_entry(&mut tr, String::from_str("quit"), String::from_str("Çıkış"));
        insert_entry(&mut tr, String::from_str("quick_scan"), String::from_str("Hızlı Tarama"));
        insert_entry(&mut tr, String::from_str("full_scan"), String::from_str("Tam Tarama"));
        insert_entry(&mut tr, String::from_str("custom_scan"), String::from_str("Özel Tarama"));
        insert_entry(&mut tr, String::from_str("threats_found"), String::from_str("Tehdit Bulundu"));
        insert_entry(&mut tr, String::from_str("files_scanned"), String::from_str("Dosya Tarandı"));
        insert_entry(&mut tr, String::from_str("clean"), String::from_str("Temizle"));
        insert_entry(&mut tr, String::from_str("cancel"), String::from_str("İptal"));
        insert_entry(&mut tr, String::from_str("apply"), String::from_str("Uygula"));
        insert_entry(&mut tr, String::from_str("close"), String::from_str("Kapat"));
        let mut translations: Vec<LanguageTable> = Vec::new();
        translations.push(LanguageTable { language: String::from_str("en"), entries: en });
        translations.push(LanguageTable { language: String::from_str("tr"), entries: tr });
        let r = Localization { current_language: String::from_str("en"), translations: translations };
        proof {
            reveal_strlit("en");
            reveal_strlit("tr");
            assert("en"@[0] != "tr"@[0]);
            let t = r.tables();
            assert(t[0].0 == "en"@);
            assert(t[1].0 == "tr"@);
            assert(keys_unique(t));
            assert(keys_unique(t[0].1));
            assert(keys_unique(t[1].1));
        }
        r
    }

    /// Switches to `language` where its strings are known; otherwise keeps
    /// the current language.
    pub fn set_language(&mut self, language: &str)
        requires
            old(self).wf(),
        ensures
            final(self).wf(),
            final(self).translations == old(self).translations,
            lookup(old(self).tables(), language@) is Some ==> final(self).current_language@
                == language@,
            lookup(old(self).tables(), language@) is None ==> final(self).current_language
                == old(self).current_language,
    {
        if self.language_index(language).is_some() {
            self.current_language = String::from_str(language);
        }
    }

    /// The index of the table of `language`, where there is one.
    fn language_index(&self, language: &str) -> (r: Option<usize>)
        requires
            self.wf(),
        ensures
            r is None <==> lookup(self.tables(), language@) is None,
            r matches Some(i) ==> i < self.translations@.len() && lookup(self.tables(), language@)
                == Some(self.tables()[i as int].1),
    {
        let ghost t = self.tables();
        let target = String::from_str(language);
        let mut i: usize = 0;
        while i < self.translations.len()
            invariant
                i <= self.translations@.len(),
                t == self.tables(),
                target@ == language@,
                keys_unique(t),
                forall|j: int| 0 <= j < i ==> (#[trigger] t[j]).0 != language@,
            decreases self.translations@.len() - i,
        {
            assert(t[i as int].0 == self.translations@[i as int].language@);
            if self.translations[i].language == target {
                proof {
                    lemma_lookup_at(t, i as int);
                }
                return Some(i);
            }
            i = i + 1;
        }
        None
    }

    /// The current language.
    pub fn get_language(&self) -> (r: &str)
        ensures
            r@ == self.current_language@,
    {
        self.current_language.as_str()
    }

    /// The text for `key` in the current language, or the key itself where
    /// it has no translation.
    pub fn t(&self, key: &str) -> (r: String)
        requires
            self.wf(),
        ensures
            r@ == translate(self.tables(), self.current_language@, key@),
    {
        let ghost t = self.tables();
        match self.language_index(self.current_language.as_str()) {
            None => String::from_str(key),
            Some(li) => {
                let entries = &self.translations[li].entries;
                let ghost pairs = t[li as int].1;
                assert(keys_unique(pairs));
                let target = String::from_str(key);
                let mut i: usize = 0;
                while i < entries.len()
                    invariant
                        i <= entries@.len(),
                        pairs == pair_models(entries@),
                        target@ == key@,
                        lookup(self.tables(), self.current_language@) == Some(pairs),
                        keys_unique(pairs),
                        forall|j: int| 0 <= j < i ==> (#[trigger] pairs[j]).0 != key@,
                    decreases entries@.len() - i,
                {
                    assert(pairs[i as int].0 == entries@[i as int].0@);
                    if entries[i].0 == target {
                        proof {
                            lemma_lookup_at(pairs, i as int);
                        }
                        return entries[i].1.clone();
                    }
                    i = i + 1;
                }
                String::from_str(key)
            },
        }
    }

    /// The languages whose strings are known, in the order they were added.
    pub fn get_available_languages(&self) -> (r: Vec<String>)
        ensures
            r@.len() == self.tables().len(),
            forall|i: int| 0 <= i < r@.len() ==> #[trigger] r@[i]@ == self.tables()[i].0,
    {
        let mut out: Vec<String> = Vec::new();
        let mut i: usize = 0;
        while i < self.translations.len()
            invariant
                i <= self.translations@.len(),
                out@.len() == i,
                forall|j: int| 0 <= j < i ==> #[trigger] out@[j]@ == self.translations@[j].language@,
            decreases self.translations@.len() - i,
        {
            out.push(self.translations[i].language.clone());
            i = i + 1;
        }
        out
    }
}

impl Default for Localization {
    fn default() -> (r: Localization)
        ensures
            r.wf(),
            r.current_language@ == "en"@,
            r.tables().len() == 2,
            r.tables()[0].0 == "en"@,
            r.tables()[1].0 == "tr"@,
    {
        Localization::new()
    }
}

} // verus!
