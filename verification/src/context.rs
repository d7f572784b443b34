use crate::config::GpgConfig;
use crate::error::GpgError;
use crate::key::GpgKey;
use crate::key::KeyDetailLevel;
use crate::key::KeyRecord;
use crate::key::KeyType;
use crate::key::spec_key_type_short;
use crate::template::render_template;
use crate::template::spec_render;
use vstd::prelude::*;

verus! {

/// The `{query}` value of the output template: the single pattern when
/// exactly one was supplied, else the literal `out`.
pub open spec fn spec_query(patterns: Seq<Seq<char>>) -> Seq<char> {
    if patterns.len() == 1 {
        patterns[0]
    } else {
        "out"@
    }
}

/// The `{ext}` value of an export: `asc` when armored, else `pgp`.
pub open spec fn spec_ext(armor: bool) -> Seq<char> {
    if armor {
        "asc"@
    } else {
        "pgp"@
    }
}

/// The output path of an export, when the template renders.
pub open spec fn spec_output_file(
    c: GpgConfig,
    key_type: KeyType,
    patterns: Seq<Seq<char>>,
) -> Option<Seq<char>> {
    match spec_render(
        c.output_file@,
        spec_key_type_short(key_type),
        spec_query(patterns),
        spec_ext(c.armor),
    ) {
        Some(f) => Some(c.output_dir@ + "/"@ + f),
        None => None,
    }
}

/// The records of a listing that the engine could materialize, in order.
pub open spec fn spec_good_records(listed: Seq<Option<KeyRecord>>) -> Seq<KeyRecord>
    decreases listed.len(),
{
    if listed.len() == 0 {
        Seq::empty()
    } else {
        spec_good_records(listed.drop_last()) + match listed.last() {
            Some(k) => seq![k],
            None => Seq::empty(),
        }
    }
}

/// The sum of the `imported` counts the engine reported for a batch.
pub open spec fn spec_sum(counts: Seq<u32>) -> int
    decreases counts.len(),
{
    if counts.len() == 0 {
        0
    } else {
        spec_sum(counts.drop_last()) + counts.last()
    }
}

/// The keys of a listing, grouped by type.
#[derive(Clone, Debug)]
pub struct AllKeys {
    /// The public keys.
    pub public: Vec<GpgKey>,
    /// The secret keys.
    pub secret: Vec<GpgKey>,
}

/// A context for the keyring operations.  It owns the configuration; the
/// surrounding application owns the engine handle, performs the engine
/// calls, and feeds their answers in as plain values.
#[derive(Clone, Debug)]
pub struct GpgContext {
    /// Configuration values.
    pub config: GpgConfig,
}

impl GpgContext {
    /// Constructs a context over the given configuration.
    pub fn new(config: GpgConfig) -> (r: GpgContext)
        ensures
            r.config == config,
    {
        GpgContext { config }
    }

    /// Returns the configured output file path: the template rendered over
    /// the key type, the query and the armor extension, joined onto the
    /// output directory.  Fails exactly when the template does not render.
    pub fn get_output_file(&self, key_type: KeyType, patterns: &Vec<String>) -> (r: Result<
        String,
        GpgError,
    >)
        ensures
            match r {
                Ok(p) => spec_output_file(
                    self.config,
                    key_type,
                    patterns@.map_values(|s: String| s@),
                ) == Some(p@),
                Err(e) => {
                    &&& spec_output_file(
                        self.config,
                        key_type,
                        patterns@.map_values(|s: String| s@),
                    ) is None
                    &&& e == GpgError::TemplateError
                },
            },
    {
        let ty = key_type.short_form();
        let query: &str = if patterns.len() == 1 {
            patterns[0].as_str()
        } else {
            "out"
        };
        let ext: &str = if self.config.armor {
            "asc"
        } else {
            "pgp"
        };
        assert(query@ == spec_query(patterns@.map_values(|s: String| s@)));
        match render_template(self.config.output_file.as_str(), ty.as_str(), query, ext) {
            Ok(f) => {
                let mut p = self.config.output_dir.clone();
                p.append("/");
                p.append(f.as_str());
                Ok(p)
            },
            Err(e) => Err(e),
        }
    }

    /// Wraps the records of a listing as view models at the given level of
    /// detail.  Listing is lenient: records the engine could not
    /// materialize are skipped, never a failure.
    pub fn get_keys(&self, listed: Vec<Option<KeyRecord>>, detail: KeyDetailLevel) -> (r: Vec<
        GpgKey,
    >)
        ensures
            r@.map_values(|k: GpgKey| k.record) == spec_good_records(listed@),
            forall|i: int| 0 <= i < r@.len() ==> r@[i].detail == detail,
    {
        let mut out: Vec<GpgKey> = Vec::new();
        let ghost l0 = listed@;
        let n = listed.len();
        let mut i: usize = 0;
        let mut listed = listed;
        while i < n
            invariant
                n == l0.len(),
                i <= n,
                listed@ =~= l0.subrange(i as int, n as int),
                out@.map_values(|k: GpgKey| k.record) =~= spec_good_records(
                    l0.subrange(0, i as int),
                ),
                forall|m: int| 0 <= m < out@.len() ==> out@[m].detail == detail,
            decreases n - i,
        {
            let ghost m0 = out@.map_values(|k: GpgKey| k.record);
            let rec = listed.remove(0);
            proof {
                assert(rec == l0[i as int]);
                assert(listed@ =~= l0.subrange(i as int + 1, n as int));
                assert(l0.subrange(0, i as int + 1).drop_last() =~= l0.subrange(0, i as int));
                assert(l0.subrange(0, i as int + 1).last() == l0[i as int]);
            }
            match rec {
                Some(record) => {
                    let ghost rcd = record;
                    out.push(GpgKey::new(record, detail));
                    assert(out@.map_values(|k: GpgKey| k.record) =~= m0 + seq![rcd]);
                },
                None => {
                },
            }
            i += 1;
        }
        assert(l0.subrange(0, n as int) =~= l0);
        out
    }

    /// Returns all keys of both types, wrapped at the given detail level,
    /// the default level when none is given.
    pub fn get_all_keys(
        &self,
        public_listed: Vec<Option<KeyRecord>>,
        secret_listed: Vec<Option<KeyRecord>>,
        detail: Option<KeyDetailLevel>,
    ) -> (r: AllKeys)
        ensures
            r.public@.map_values(|k: GpgKey| k.record) == spec_good_records(public_listed@),
            r.secret@.map_values(|k: GpgKey| k.record) == spec_good_records(secret_listed@),
            forall|i: int|
                0 <= i < r.public@.len() ==> r.public@[i].detail == match detail {
                    Some(d) => d,
                    None => KeyDetailLevel::Minimum,
                },
            forall|i: int|
                0 <= i < r.secret@.len() ==> r.secret@[i].detail == match detail {
                    Some(d) => d,
                    None => KeyDetailLevel::Minimum,
                },
    {
        let d = match detail {
            Some(d) => d,
            None => KeyDetailLevel::Minimum,
        };
        AllKeys {
            public: self.get_keys(public_listed, d),
            secret: self.get_keys(secret_listed, d),
        }
    }

    /// Totals the `imported` counts the engine reported for a batch of
    /// imports; `None` when the total does not fit the count type.
    pub fn import_keys(&self, counts: &Vec<u32>) -> (r: Option<u32>)
        ensures
            match r {
                Some(total) => total as int == spec_sum(counts@),
                None => spec_sum(counts@) > u32::MAX,
            },
    {
        let mut total: u32 = 0;
        let n = counts.len();
        let mut i: usize = 0;
        while i < n
            invariant
                n == counts@.len(),
                i <= n,
                total as int == spec_sum(counts@.subrange(0, i as int)),
            decreases n - i,
        {
            let c = counts[i];
            assert(counts@.subrange(0, i as int + 1).drop_last() =~= counts@.subrange(0, i as int));
            if c > u32::MAX - total {
                proof {
                    lemma_sum_prefix_bound(counts@, i as int + 1);
                }
                return None;
            }
            total = total + c;
            i += 1;
        }
        assert(counts@.subrange(0, n as int) =~= counts@);
        Some(total)
    }

    /// Chooses the key a send operation addresses: the first of the
    /// matching public keys; no match is a lookup failure.
    pub fn select_send_key(&self, matched: Vec<GpgKey>) -> (r: Result<GpgKey, GpgError>)
        ensures
            match r {
                Ok(k) => matched@.len() > 0 && k == matched@[0],
                Err(e) => matched@.len() == 0 && e == GpgError::KeyNotFound,
            },
    {
        let mut matched = matched;
        if matched.len() > 0 {
            Ok(matched.remove(0))
        } else {
            Err(GpgError::KeyNotFound)
        }
    }

    /// The identifier reported for a sent key: its id, or the empty string
    /// when the engine reports none.
    pub fn sent_key_id(&self, key: &GpgKey) -> (r: String)
        ensures
            r@ == match key.record.id {
                Some(id) => id@,
                None => Seq::<char>::empty(),
            },
    {
        match &key.record.id {
            Some(id) => id.clone(),
            None => String::new(),
        }
    }

    /// Checks the bytes an export produced: an empty buffer means nothing
    /// was exported, anything else is passed through unchanged.
    pub fn get_exported_keys(&self, exported: Vec<u8>) -> (r: Result<Vec<u8>, GpgError>)
        ensures
            match r {
                Ok(b) => exported@.len() > 0 && b@ == exported@,
                Err(e) => exported@.len() == 0 && e == GpgError::NothingExported,
            },
    {
        if exported.len() == 0 {
            Err(GpgError::NothingExported)
        } else {
            Ok(exported)
        }
    }

    /// Resolves an export: checks the exported bytes, then the destination
    /// path, in that order.  Returns the path and the bytes the caller must
    /// write there.
    pub fn export_keys(&self, key_type: KeyType, patterns: &Vec<String>, exported: Vec<u8>) -> (r:
        Result<(String, Vec<u8>), GpgError>)
        ensures
            match r {
                Ok(p) => {
                    &&& exported@.len() > 0
                    &&& spec_output_file(
                        self.config,
                        key_type,
                        patterns@.map_values(|s: String| s@),
                    ) == Some(p.0@)
                    &&& p.1@ == exported@
                },
                Err(e) => {
                    if exported@.len() == 0 {
                        e == GpgError::NothingExported
                    } else {
                        &&& spec_output_file(
                            self.config,
                            key_type,
                            patterns@.map_values(|s: String| s@),
                        ) is None
                        &&& e == GpgError::TemplateError
                    }
                },
            },
    {
        let output = match self.get_exported_keys(exported) {
            Ok(b) => b,
            Err(e) => {
                return Err(e);
            },
        };
        match self.get_output_file(key_type, patterns) {
            Ok(path) => Ok((path, output)),
            Err(e) => Err(e),
        }
    }
}

/// A listing of records that are all materialized keeps them all.
pub proof fn lemma_good_records_all_some(l: Seq<Option<KeyRecord>>)
    requires
        forall|i: int| 0 <= i < l.len() ==> l[i] is Some,
    ensures
        spec_good_records(l).len() == l.len(),
    decreases l.len(),
{
    if l.len() > 0 {
        lemma_good_records_all_some(l.drop_last());
    }
}

/// Lenient listing: a keyring holding one record the engine cannot
/// materialize among good ones lists exactly the good ones, and does not
/// fail.
pub proof fn lemma_lenient_listing(l: Seq<Option<KeyRecord>>, b: int)
    requires
        0 <= b < l.len(),
        l[b] is None,
        forall|i: int| 0 <= i < l.len() && i != b ==> l[i] is Some,
    ensures
        spec_good_records(l).len() == l.len() - 1,
    decreases l.len(),
{
    if b == l.len() - 1 {
        lemma_good_records_all_some(l.drop_last());
    } else {
        lemma_lenient_listing(l.drop_last(), b);
    }
}

/// The total of a batch is at least the total of any prefix.
pub proof fn lemma_sum_prefix_bound(counts: Seq<u32>, i: int)
    requires
        0 <= i <= counts.len(),
    ensures
        spec_sum(counts.subrange(0, i)) <= spec_sum(counts),
    decreases counts.len() - i,
{
    if i == counts.len() {
        assert(counts.subrange(0, i) =~= counts);
    } else {
        assert(counts.subrange(0, i + 1).drop_last() =~= counts.subrange(0, i));
        assert(spec_sum(counts.subrange(0, i + 1)) == spec_sum(counts.subrange(0, i))
            + counts.subrange(0, i + 1).last());
        lemma_sum_prefix_bound(counts, i + 1);
    }
}

} // verus!
