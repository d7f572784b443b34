use crate::textfmt::Date;
use crate::textfmt::format_date;
use crate::textfmt::spec_date;
use crate::textfmt::spec_hex;
use crate::textfmt::u64_to_hex;
use vstd::prelude::*;

verus! {

/// Type of a key.
#[derive(Clone, Copy, Debug, PartialEq, Eq, Structural)]
pub enum KeyType {
    /// Public key.
    Public,
    /// Secret (private) key.
    Secret,
}

/// The textual short form of a key type.
pub open spec fn spec_key_type_short(t: KeyType) -> Seq<char> {
    match t {
        KeyType::Public => "pub"@,
        KeyType::Secret => "sec"@,
    }
}

impl KeyType {
    /// The textual short form: `pub` or `sec`.
    pub fn short_form(&self) -> (r: String)
        ensures
            r@ == spec_key_type_short(*self),
    {
        match self {
            KeyType::Public => String::from_str("pub"),
            KeyType::Secret => String::from_str("sec"),
        }
    }

    /// Whether operations keyed by this type address the secret keyring
    /// (secret lookup, secret deletion, secret export mode).
    pub fn is_secret(&self) -> (r: bool)
        ensures
            r == (*self == KeyType::Secret),
    {
        match self {
            KeyType::Public => false,
            KeyType::Secret => true,
        }
    }
}

/// Level of detail to show for a key.
#[derive(Clone, Copy, Debug, PartialEq, Eq, Structural)]
pub enum KeyDetailLevel {
    /// Show only the primary key and user ID.
    Minimum,
    /// Show all subkeys and user IDs.
    Standard,
    /// Show signatures.
    Full,
}

/// The cyclic successor of a detail level.
pub open spec fn spec_next_detail(d: KeyDetailLevel) -> KeyDetailLevel {
    match d {
        KeyDetailLevel::Minimum => KeyDetailLevel::Standard,
        KeyDetailLevel::Standard => KeyDetailLevel::Full,
        KeyDetailLevel::Full => KeyDetailLevel::Minimum,
    }
}

impl KeyDetailLevel {
    /// Increases the level of detail, wrapping from `Full` back to
    /// `Minimum`.
    pub fn increase(&mut self)
        ensures
            *final(self) == spec_next_detail(*old(self)),
    {
        *self = match *self {
            KeyDetailLevel::Minimum => KeyDetailLevel::Standard,
            KeyDetailLevel::Standard => KeyDetailLevel::Full,
            KeyDetailLevel::Full => KeyDetailLevel::Minimum,
        };
    }
}

impl Default for KeyDetailLevel {
    /// The default level of detail.
    fn default() -> (r: Self)
        ensures
            r == KeyDetailLevel::Minimum,
    {
        KeyDetailLevel::Minimum
    }
}

/// Cycling through the detail levels: three successive increments return
/// any level to itself, along Minimum → Standard → Full → Minimum.
pub proof fn lemma_detail_cycle(d: KeyDetailLevel)
    ensures
        spec_next_detail(spec_next_detail(spec_next_detail(d))) == d,
        spec_next_detail(KeyDetailLevel::Minimum) == KeyDetailLevel::Standard,
        spec_next_detail(KeyDetailLevel::Standard) == KeyDetailLevel::Full,
        spec_next_detail(KeyDetailLevel::Full) == KeyDetailLevel::Minimum,
{
}

/// Validity of a user ID, as the engine grades it.
#[derive(Clone, Copy, Debug, PartialEq, Eq, Structural)]
pub enum Validity {
    Unknown,
    Undefined,
    Never,
    Marginal,
    Full,
    Ultimate,
}

/// The one-character short form of a validity grade.
pub open spec fn spec_validity_short(v: Validity) -> Seq<char> {
    match v {
        Validity::Unknown => "?"@,
        Validity::Undefined => "q"@,
        Validity::Never => "n"@,
        Validity::Marginal => "m"@,
        Validity::Full => "f"@,
        Validity::Ultimate => "u"@,
    }
}

impl Validity {
    /// The one-character short form of the grade.
    pub fn short_form(&self) -> (r: String)
        ensures
            r@ == spec_validity_short(*self),
    {
        match self {
            Validity::Unknown => String::from_str("?"),
            Validity::Undefined => String::from_str("q"),
            Validity::Never => String::from_str("n"),
            Validity::Marginal => String::from_str("m"),
            Validity::Full => String::from_str("f"),
            Validity::Ultimate => String::from_str("u"),
        }
    }
}

/// What the view model reads of a subkey, as plain values.
#[derive(Clone, Debug)]
pub struct SubkeyRecord {
    /// Name of the algorithm, when the engine reports one.
    pub algorithm_name: Option<String>,
    /// The short key ID.
    pub id: Option<String>,
    /// The full fingerprint.
    pub fingerprint: Option<String>,
    /// Capability: signing.
    pub can_sign: bool,
    /// Capability: encryption.
    pub can_encrypt: bool,
    /// Capability: certification.
    pub can_certify: bool,
    /// Capability: authentication.
    pub can_authenticate: bool,
    /// The subkey is disabled.
    pub is_disabled: bool,
    /// The subkey is expired.
    pub is_expired: bool,
    /// The subkey is revoked.
    pub is_revoked: bool,
    /// Creation date.
    pub creation: Option<Date>,
    /// Expiration date, when one is set.
    pub expiration: Option<Date>,
}

/// What the view model reads of one signature on a user ID.
#[derive(Clone, Debug)]
pub struct SigRecord {
    /// Key ID of the signer.
    pub signer_key_id: Option<String>,
    /// User ID of the signer.
    pub signer_user_id: Option<String>,
    /// Certification class.
    pub cert_class: u64,
    /// The signature is expired.
    pub is_expired: bool,
    /// The signature is a revocation.
    pub is_revoked: bool,
    /// Creation date.
    pub creation: Option<Date>,
    /// Expiration date, when one is set.
    pub expiration: Option<Date>,
}

/// What the view model reads of a user ID.
#[derive(Clone, Debug)]
pub struct UserRecord {
    /// The full user ID string.
    pub id: Option<String>,
    /// The email alone.
    pub email: Option<String>,
    /// Validity grade.
    pub validity: Validity,
    /// The signatures on this user ID, in engine order.
    pub signatures: Vec<SigRecord>,
}

/// What the view model reads of a whole key record.
#[derive(Clone, Debug)]
pub struct KeyRecord {
    /// The key ID.
    pub id: Option<String>,
    /// The subkeys, in engine order.
    pub subkeys: Vec<SubkeyRecord>,
    /// The user IDs, in engine order.
    pub user_ids: Vec<UserRecord>,
}

/// A key together with the level of detail at which it is shown.
#[derive(Clone, Debug)]
pub struct GpgKey {
    /// The key record.
    pub record: KeyRecord,
    /// Level of detail to show about key information.
    pub detail: KeyDetailLevel,
}

/// The string that stands in for a missing value.
pub open spec fn opt_str(o: Option<String>) -> Seq<char> {
    match o {
        Some(s) => s@,
        None => "[?]"@,
    }
}

impl GpgKey {
    /// Wraps a key record at the given level of detail.
    pub fn new(record: KeyRecord, detail: KeyDetailLevel) -> (r: GpgKey)
        ensures
            r.record == record,
            r.detail == detail,
    {
        GpgKey { record, detail }
    }

    /// Returns the key ID with a `0x` prefix, or `[?]` when the engine
    /// reports none.
    pub fn get_id(&self) -> (r: String)
        ensures
            r@ == match self.record.id {
                Some(id) => "0x"@ + id@,
                None => "[?]"@,
            },
    {
        match &self.record.id {
            Some(id) => {
                let mut out = String::from_str("0x");
                out.append(id.as_str());
                out
            }
            None => String::from_str("[?]"),
        }
    }
}

/// Two optional strings hold the same text, or are both absent.
pub open spec fn spec_opt_eq(a: Option<String>, b: Option<String>) -> bool {
    match a {
        Some(x) => match b {
            Some(y) => x@ == y@,
            None => false,
        },
        None => b is None,
    }
}

/// The textual mark on a revoked or expired item.
pub open spec fn spec_time_mark(revoked: bool, expired: bool) -> Seq<char> {
    if revoked {
        "[rev] "@
    } else if expired {
        "[exp] "@
    } else {
        Seq::empty()
    }
}

/// The time column of an item: its expiration date when one is set, else
/// its creation date, else `[?]`; revoked or expired items are marked.
pub open spec fn spec_time_string(
    creation: Option<Date>,
    expiration: Option<Date>,
    revoked: bool,
    expired: bool,
    truncate: bool,
) -> Seq<char> {
    spec_time_mark(revoked, expired) + match expiration {
        Some(d) => spec_date(d, truncate),
        None => match creation {
            Some(d) => spec_date(d, truncate),
            None => "[?]"@,
        },
    }
}

/// The capability string of a subkey: one stable character per usage bit,
/// in the order sign, encrypt, certify, authenticate, then the marks for
/// disabled, expired and revoked.
pub open spec fn spec_subkey_flags(sk: SubkeyRecord) -> Seq<char> {
    (if sk.can_sign {
        "s"@
    } else {
        Seq::empty()
    }) + (if sk.can_encrypt {
        "e"@
    } else {
        Seq::empty()
    }) + (if sk.can_certify {
        "c"@
    } else {
        Seq::empty()
    }) + (if sk.can_authenticate {
        "a"@
    } else {
        Seq::empty()
    }) + (if sk.is_disabled {
        "d"@
    } else {
        Seq::empty()
    }) + (if sk.is_expired {
        "x"@
    } else {
        Seq::empty()
    }) + (if sk.is_revoked {
        "r"@
    } else {
        Seq::empty()
    })
}

/// The header line of a subkey: `[<flags>] <algorithm>/<identifier>`, the
/// identifier being the short key ID when truncated, else the fingerprint.
pub open spec fn spec_subkey_header(sk: SubkeyRecord, truncate: bool) -> Seq<char> {
    "["@ + spec_subkey_flags(sk) + "] "@ + opt_str(sk.algorithm_name) + "/"@ + opt_str(
        if truncate {
            sk.id
        } else {
            sk.fingerprint
        },
    )
}

/// The continuation line of a subkey: a trunk glyph, then the time column.
pub open spec fn spec_subkey_time_line(sk: SubkeyRecord, last: bool, truncate: bool) -> Seq<char> {
    (if last {
        " "@
    } else {
        "|"@
    }) + "      └─"@ + spec_time_string(sk.creation, sk.expiration, sk.is_revoked, sk.is_expired, truncate)
}

/// The subkey lines of a key: at minimum detail the first subkey's header
/// alone; otherwise a header and a continuation line for every subkey.
pub open spec fn spec_subkey_info(key: GpgKey, truncate: bool) -> Seq<Seq<char>> {
    let subkeys = key.record.subkeys@;
    if key.detail == KeyDetailLevel::Minimum {
        if subkeys.len() == 0 {
            Seq::empty()
        } else {
            seq![spec_subkey_header(subkeys[0], truncate)]
        }
    } else {
        Seq::new(
            2 * subkeys.len(),
            |i: int|
                if i % 2 == 0 {
                    spec_subkey_header(subkeys[i / 2], truncate)
                } else {
                    spec_subkey_time_line(subkeys[i / 2], i / 2 == subkeys.len() - 1, truncate)
                },
        )
    }
}

/// The tree prefix of the user line at index `i` of `n`.
pub open spec fn spec_user_prefix(i: int, n: int) -> Seq<char> {
    if i == 0 {
        Seq::empty()
    } else if i == n - 1 {
        " └─"@
    } else {
        " ├─"@
    }
}

/// The line of a user ID: prefix, validity grade, then the email when
/// truncated, else the full user ID string.
pub open spec fn spec_user_line(u: UserRecord, i: int, n: int, truncate: bool) -> Seq<char> {
    spec_user_prefix(i, n) + "["@ + spec_validity_short(u.validity) + "] "@ + opt_str(
        if truncate {
            u.email
        } else {
            u.id
        },
    )
}

/// The column stem of the signature subtree under user `i` of `n`.
pub open spec fn spec_sig_stem(i: int, n: int) -> Seq<char> {
    if n == 1 {
        " "@
    } else if i == n - 1 {
        "    "@
    } else if i == 0 {
        "│"@
    } else {
        "│   "@
    }
}

/// The branch glyph of signature `j` of `s`.
pub open spec fn spec_sig_branch(j: int, s: int) -> Seq<char> {
    if j == s - 1 {
        "└─"@
    } else {
        "├─"@
    }
}

/// The body of a signature line: the literal `selfsig` when the signer is
/// the enclosing key itself; otherwise the signer key ID alone when
/// truncated, or the signer key ID and user ID.
pub open spec fn spec_sig_body(sig: SigRecord, key_id: Option<String>, truncate: bool) -> Seq<
    char,
> {
    if spec_opt_eq(sig.signer_key_id, key_id) {
        "selfsig"@
    } else if truncate {
        opt_str(sig.signer_key_id)
    } else {
        opt_str(sig.signer_key_id) + " "@ + opt_str(sig.signer_user_id)
    }
}

/// One signature line: stem, branch, certification class in hexadecimal,
/// signer body, then the time column.
pub open spec fn spec_sig_line(
    sig: SigRecord,
    key_id: Option<String>,
    i: int,
    n: int,
    j: int,
    s: int,
    truncate: bool,
) -> Seq<char> {
    spec_sig_stem(i, n) + spec_sig_branch(j, s) + "["@ + spec_hex(
        sig.cert_class as nat,
    ) + "] "@ + spec_sig_body(sig, key_id, truncate) + " "@ + spec_time_string(
        sig.creation,
        sig.expiration,
        sig.is_revoked,
        sig.is_expired,
        truncate,
    )
}

/// The signature subtree of user `i` of `n`: one line per signature, in
/// engine order.
pub open spec fn spec_user_sig_lines(
    u: UserRecord,
    key_id: Option<String>,
    i: int,
    n: int,
    truncate: bool,
) -> Seq<Seq<char>> {
    Seq::new(
        u.signatures@.len(),
        |j: int| spec_sig_line(u.signatures@[j], key_id, i, n, j, u.signatures@.len() as int, truncate),
    )
}

/// The lines contributed by user `i` of `n`: the user line, and at full
/// detail its signature subtree.
pub open spec fn spec_user_segment(
    u: UserRecord,
    key_id: Option<String>,
    i: int,
    n: int,
    detail: KeyDetailLevel,
    truncate: bool,
) -> Seq<Seq<char>> {
    seq![spec_user_line(u, i, n, truncate)] + if detail == KeyDetailLevel::Full {
        spec_user_sig_lines(u, key_id, i, n, truncate)
    } else {
        Seq::empty()
    }
}

/// The user lines of the first `k` users of a key.
pub open spec fn spec_user_info_upto(key: GpgKey, truncate: bool, k: int) -> Seq<Seq<char>>
    decreases k,
{
    if k <= 0 {
        Seq::empty()
    } else {
        spec_user_info_upto(key, truncate, k - 1) + spec_user_segment(
            key.record.user_ids@[k - 1],
            key.record.id,
            k - 1,
            key.record.user_ids@.len() as int,
            key.detail,
            truncate,
        )
    }
}

/// The user lines of a key: at minimum detail the first user's line alone;
/// otherwise every user's segment in engine order.
pub open spec fn spec_user_info(key: GpgKey, truncate: bool) -> Seq<Seq<char>> {
    let users = key.record.user_ids@;
    if key.detail == KeyDetailLevel::Minimum {
        if users.len() == 0 {
            Seq::empty()
        } else {
            seq![spec_user_line(users[0], 0, users.len() as int, truncate)]
        }
    } else {
        spec_user_info_upto(key, truncate, users.len() as int)
    }
}

/// Rendering glyphs: on a key with two user IDs whose second bears three
/// signatures, full detail places the three signature lines right after the
/// second user's line, drawn as a column of two tees and a final corner;
/// and any signature whose signer is the key itself renders its body as the
/// literal `selfsig`.
pub proof fn lemma_rendering_glyphs(key: GpgKey, truncate: bool)
    requires
        key.detail == KeyDetailLevel::Full,
        key.record.user_ids@.len() == 2,
        key.record.user_ids@[1].signatures@.len() == 3,
    ensures
        spec_user_info(key, truncate).len() == 5 + key.record.user_ids@[0].signatures@.len(),
        forall|j: int|
            0 <= j < 3 ==> spec_user_info(key, truncate)[
                2 + key.record.user_ids@[0].signatures@.len() + j
            ] == spec_sig_line(
                #[trigger] key.record.user_ids@[1].signatures@[j],
                key.record.id,
                1,
                2,
                j,
                3,
                truncate,
            ),
        forall|j: int|
            0 <= j < 2 ==> #[trigger] spec_sig_line(
                key.record.user_ids@[1].signatures@[j],
                key.record.id,
                1,
                2,
                j,
                3,
                truncate,
            ).subrange(0, 6) == "    ├─"@,
        spec_sig_line(
            key.record.user_ids@[1].signatures@[2],
            key.record.id,
            1,
            2,
            2,
            3,
            truncate,
        ).subrange(0, 6) == "    └─"@,
        forall|sig: SigRecord|
            spec_opt_eq(sig.signer_key_id, key.record.id) ==> #[trigger] spec_sig_body(
                sig,
                key.record.id,
                truncate,
            ) == "selfsig"@,
{
    reveal_strlit(" ");
    reveal_strlit("    ");
    reveal_strlit("  ");
    reveal_strlit("├─");
    reveal_strlit("└─");
    reveal_strlit("    ├─");
    reveal_strlit("    └─");
    let lines = spec_user_info(key, truncate);
    let u0 = key.record.user_ids@[0];
    let u1 = key.record.user_ids@[1];
    let s0 = u0.signatures@.len() as int;
    let seg0 = spec_user_segment(u0, key.record.id, 0, 2, key.detail, truncate);
    let seg1 = spec_user_segment(u1, key.record.id, 1, 2, key.detail, truncate);
    assert(spec_user_info_upto(key, truncate, 1) == spec_user_info_upto(key, truncate, 0) + seg0);
    assert(spec_user_info_upto(key, truncate, 2) == spec_user_info_upto(key, truncate, 1) + seg1);
    assert(lines =~= seg0 + seg1);
    assert(seg0.len() == 1 + s0);
    assert(seg1.len() == 4);
    assert forall|j: int| 0 <= j < 3 implies lines[2 + s0 + j] == spec_sig_line(
        #[trigger] key.record.user_ids@[1].signatures@[j],
        key.record.id,
        1,
        2,
        j,
        3,
        truncate,
    ) by {
        assert(lines[2 + s0 + j] == seg1[1 + j]);
        assert(seg1[1 + j] == spec_user_sig_lines(u1, key.record.id, 1, 2, truncate)[j]);
    }
    assert forall|j: int| 0 <= j < 2 implies #[trigger] spec_sig_line(
        key.record.user_ids@[1].signatures@[j],
        key.record.id,
        1,
        2,
        j,
        3,
        truncate,
    ).subrange(0, 6) == "    ├─"@ by {
        assert(spec_sig_line(
            key.record.user_ids@[1].signatures@[j],
            key.record.id,
            1,
            2,
            j,
            3,
            truncate,
        ).subrange(0, 6) =~= "    ├─"@);
    }
    assert(spec_sig_line(
        key.record.user_ids@[1].signatures@[2],
        key.record.id,
        1,
        2,
        2,
        3,
        truncate,
    ).subrange(0, 6) =~= "    └─"@);
}

/// Appends the text of an optional string, `[?]` when it is absent.
fn push_opt(out: &mut String, o: &Option<String>)
    ensures
        final(out)@ == old(out)@ + opt_str(*o),
{
    match o {
        Some(s) => out.append(s.as_str()),
        None => out.append("[?]"),
    }
}

/// Appends the time column of an item.
fn push_time_string(
    out: &mut String,
    creation: &Option<Date>,
    expiration: &Option<Date>,
    revoked: bool,
    expired: bool,
    truncate: bool,
)
    ensures
        final(out)@ == old(out)@ + spec_time_string(*creation, *expiration, revoked, expired, truncate),
{
    if revoked {
        out.append("[rev] ");
    } else if expired {
        out.append("[exp] ");
    }
    match expiration {
        Some(d) => {
            let ds = format_date(d, truncate);
            out.append(ds.as_str());
        }
        None => match creation {
            Some(d) => {
                let ds = format_date(d, truncate);
                out.append(ds.as_str());
            }
            None => out.append("[?]"),
        },
    }
    assert(final(out)@ =~= old(out)@ + spec_time_string(
        *creation,
        *expiration,
        revoked,
        expired,
        truncate,
    ));
}

/// Renders the capability string of a subkey.
#[verifier::rlimit(60)]
fn subkey_flags(sk: &SubkeyRecord) -> (r: String)
    ensures
        r@ == spec_subkey_flags(*sk),
{
    let mut out = String::new();
    if sk.can_sign {
        out.append("s");
    }
    if sk.can_encrypt {
        out.append("e");
    }
    if sk.can_certify {
        out.append("c");
    }
    if sk.can_authenticate {
        out.append("a");
    }
    if sk.is_disabled {
        out.append("d");
    }
    if sk.is_expired {
        out.append("x");
    }
    if sk.is_revoked {
        out.append("r");
    }
    assert(out@ =~= spec_subkey_flags(*sk));
    out
}

/// Renders the header line of a subkey.
fn subkey_header(sk: &SubkeyRecord, truncate: bool) -> (r: String)
    ensures
        r@ == spec_subkey_header(*sk, truncate),
{
    let mut out = String::from_str("[");
    let fl = subkey_flags(sk);
    out.append(fl.as_str());
    out.append("] ");
    push_opt(&mut out, &sk.algorithm_name);
    out.append("/");
    if truncate {
        push_opt(&mut out, &sk.id);
    } else {
        push_opt(&mut out, &sk.fingerprint);
    }
    assert(out@ =~= spec_subkey_header(*sk, truncate));
    out
}

/// Renders the continuation line of a subkey.
fn subkey_time_line(sk: &SubkeyRecord, last: bool, truncate: bool) -> (r: String)
    ensures
        r@ == spec_subkey_time_line(*sk, last, truncate),
{
    let mut out = if last {
        String::from_str(" ")
    } else {
        String::from_str("|")
    };
    out.append("      └─");
    push_time_string(&mut out, &sk.creation, &sk.expiration, sk.is_revoked, sk.is_expired, truncate);
    assert(out@ =~= spec_subkey_time_line(*sk, last, truncate));
    out
}

/// Renders the line of a user ID.
fn user_line(u: &UserRecord, i: usize, n: usize, truncate: bool) -> (r: String)
    requires
        i < n,
    ensures
        r@ == spec_user_line(*u, i as int, n as int, truncate),
{
    let mut out = if i == 0 {
        String::new()
    } else if i == n - 1 {
        String::from_str(" └─")
    } else {
        String::from_str(" ├─")
    };
    out.append("[");
    let v = u.validity.short_form();
    out.append(v.as_str());
    out.append("] ");
    if truncate {
        push_opt(&mut out, &u.email);
    } else {
        push_opt(&mut out, &u.id);
    }
    assert(out@ =~= spec_user_line(*u, i as int, n as int, truncate));
    out
}

/// Renders one signature line.
fn sig_line(
    sig: &SigRecord,
    key_id: &Option<String>,
    i: usize,
    n: usize,
    j: usize,
    s: usize,
    truncate: bool,
) -> (r: String)
    requires
        i < n,
        j < s,
    ensures
        r@ == spec_sig_line(*sig, *key_id, i as int, n as int, j as int, s as int, truncate),
{
    let mut out = if n == 1 {
        String::from_str(" ")
    } else if i == n - 1 {
        String::from_str("    ")
    } else if i == 0 {
        String::from_str("│")
    } else {
        String::from_str("│   ")
    };
    if j == s - 1 {
        out.append("└─");
    } else {
        out.append("├─");
    }
    out.append("[");
    let hex = u64_to_hex(sig.cert_class);
    out.append(hex.as_str());
    out.append("] ");
    let selfsig = match (&sig.signer_key_id, key_id) {
        (Some(x), Some(y)) => *x == *y,
        (None, None) => true,
        _ => false,
    };
    if selfsig {
        out.append("selfsig");
    } else if truncate {
        push_opt(&mut out, &sig.signer_key_id);
    } else {
        push_opt(&mut out, &sig.signer_key_id);
        out.append(" ");
        push_opt(&mut out, &sig.signer_user_id);
    }
    out.append(" ");
    push_time_string(&mut out, &sig.creation, &sig.expiration, sig.is_revoked, sig.is_expired, truncate);
    assert(out@ =~= spec_sig_line(*sig, *key_id, i as int, n as int, j as int, s as int, truncate));
    out
}

impl GpgKey {
    /// Returns information about the subkeys: for each subkey a header
    /// line, and below minimum detail also a continuation line; at minimum
    /// detail only the first subkey's header.
    pub fn get_subkey_info(&self, truncate: bool) -> (r: Vec<String>)
        ensures
            r@.map_values(|s: String| s@) == spec_subkey_info(*self, truncate),
    {
        let mut out: Vec<String> = Vec::new();
        let n = self.record.subkeys.len();
        if self.detail == KeyDetailLevel::Minimum {
            if n > 0 {
                out.push(subkey_header(&self.record.subkeys[0], truncate));
            }
            assert(out@.map_values(|s: String| s@) =~= spec_subkey_info(*self, truncate));
            return out;
        }
        let mut i: usize = 0;
        while i < n
            invariant
                self.detail != KeyDetailLevel::Minimum,
                n == self.record.subkeys@.len(),
                i <= n,
                out@.map_values(|s: String| s@) =~= spec_subkey_info(*self, truncate).subrange(
                    0,
                    2 * i as int,
                ),
            decreases n - i,
        {
            let ghost m0 = out@.map_values(|s: String| s@);
            let ghost all = spec_subkey_info(*self, truncate);
            let h = subkey_header(&self.record.subkeys[i], truncate);
            let ghost hs = h@;
            out.push(h);
            let t = subkey_time_line(&self.record.subkeys[i], i == n - 1, truncate);
            let ghost ts = t@;
            out.push(t);
            proof {
                assert(out@.map_values(|s: String| s@) =~= m0.push(hs).push(ts));
                assert(all[2 * i as int] == spec_subkey_header(
                    self.record.subkeys@[i as int],
                    truncate,
                ));
                assert(all[2 * i as int + 1] == spec_subkey_time_line(
                    self.record.subkeys@[i as int],
                    i as int == n as int - 1,
                    truncate,
                ));
                assert(all.subrange(0, 2 * i as int + 2) =~= all.subrange(0, 2 * i as int).push(
                    all[2 * i as int],
                ).push(all[2 * i as int + 1]));
                assert(out@.map_values(|s: String| s@) =~= all.subrange(0, 2 * (i + 1) as int));
            }
            i += 1;
        }
        assert(out@.map_values(|s: String| s@) =~= spec_subkey_info(*self, truncate));
        out
    }

    /// Returns the signature subtree of user `i` of `n`.
    fn user_signatures(&self, u: &UserRecord, i: usize, n: usize, truncate: bool) -> (r: Vec<
        String,
    >)
        requires
            i < n,
        ensures
            r@.map_values(|s: String| s@) == spec_user_sig_lines(
                *u,
                self.record.id,
                i as int,
                n as int,
                truncate,
            ),
    {
        let mut out: Vec<String> = Vec::new();
        let s = u.signatures.len();
        let mut j: usize = 0;
        while j < s
            invariant
                i < n,
                s == u.signatures@.len(),
                j <= s,
                out@.map_values(|x: String| x@) =~= spec_user_sig_lines(
                    *u,
                    self.record.id,
                    i as int,
                    n as int,
                    truncate,
                ).subrange(0, j as int),
            decreases s - j,
        {
            let ghost m0 = out@.map_values(|x: String| x@);
            let ghost all = spec_user_sig_lines(*u, self.record.id, i as int, n as int, truncate);
            let line = sig_line(&u.signatures[j], &self.record.id, i, n, j, s, truncate);
            let ghost ls = line@;
            out.push(line);
            proof {
                assert(out@.map_values(|x: String| x@) =~= m0.push(ls));
                assert(all[j as int] == spec_sig_line(
                    u.signatures@[j as int],
                    self.record.id,
                    i as int,
                    n as int,
                    j as int,
                    s as int,
                    truncate,
                ));
                assert(all.subrange(0, j as int + 1) =~= all.subrange(0, j as int).push(
                    all[j as int],
                ));
                assert(out@.map_values(|x: String| x@) =~= all.subrange(0, j as int + 1));
            }
            j += 1;
        }
        assert(out@.map_values(|x: String| x@) =~= spec_user_sig_lines(
            *u,
            self.record.id,
            i as int,
            n as int,
            truncate,
        ));
        out
    }

    /// Returns information about the users of the key: one line per user
    /// ID, at full detail followed by its signature subtree; at minimum
    /// detail only the first user's line.
    pub fn get_user_info(&self, truncate: bool) -> (r: Vec<String>)
        ensures
            r@.map_values(|s: String| s@) == spec_user_info(*self, truncate),
    {
        let mut out: Vec<String> = Vec::new();
        let n = self.record.user_ids.len();
        if self.detail == KeyDetailLevel::Minimum {
            if n > 0 {
                out.push(user_line(&self.record.user_ids[0], 0, n, truncate));
            }
            assert(out@.map_values(|s: String| s@) =~= spec_user_info(*self, truncate));
            return out;
        }
        let mut i: usize = 0;
        while i < n
            invariant
                self.detail != KeyDetailLevel::Minimum,
                n == self.record.user_ids@.len(),
                i <= n,
                out@.map_values(|s: String| s@) =~= spec_user_info_upto(*self, truncate, i as int),
            decreases n - i,
        {
            let ghost m0 = out@.map_values(|s: String| s@);
            let line = user_line(&self.record.user_ids[i], i, n, truncate);
            let ghost ls = line@;
            out.push(line);
            let ghost mut sg = Seq::<Seq<char>>::empty();
            if self.detail == KeyDetailLevel::Full {
                let mut sigs = self.user_signatures(&self.record.user_ids[i], i, n, truncate);
                proof {
                    sg = sigs@.map_values(|s: String| s@);
                }
                out.append(&mut sigs);
            }
            proof {
                let seg = spec_user_segment(
                    self.record.user_ids@[i as int],
                    self.record.id,
                    i as int,
                    n as int,
                    self.detail,
                    truncate,
                );
                assert(seg =~= seq![ls] + sg);
                assert(out@.map_values(|s: String| s@) =~= m0 + seq![ls] + sg);
                assert(spec_user_info_upto(*self, truncate, i as int + 1) == spec_user_info_upto(
                    *self,
                    truncate,
                    i as int,
                ) + seg);
                assert(out@.map_values(|s: String| s@) =~= spec_user_info_upto(
                    *self,
                    truncate,
                    i as int + 1,
                ));
            }
            i += 1;
        }
        assert(out@.map_values(|s: String| s@) =~= spec_user_info(*self, truncate));
        out
    }
}

} // verus!
