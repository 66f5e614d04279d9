//! Users and wallets as stored, and the views of them that may be shown.
//! Record ids are kept in their rendered form; times are Unix seconds.
use vstd::prelude::*;
use crate::text::owned;

verus! {

/// A registered user, password hash included.
#[derive(Debug, Clone)]
pub struct User {
    pub id: String,
    pub name: String,
    pub username: String,
    pub email: String,
    pub password: String,
    pub address: String,
    pub created_at: i64,
    pub updated_at: i64,
}

impl User {
    /// A user created at `now`.
    pub fn new(id: String, name: String, username: String, email: String, password: String, address: String, now: i64) -> (u: Self)
        ensures
            u.id == id,
            u.name == name,
            u.username == username,
            u.email == email,
            u.password == password,
            u.address == address,
            u.created_at == now,
            u.updated_at == now,
    {
        User { id, name, username, email, password, address, created_at: now, updated_at: now }
    }
}

/// What may be shown of a user: no password hash.
#[derive(Debug, Clone)]
pub struct UserProfile {
    pub id: String,
    pub name: String,
    pub username: String,
    pub email: String,
    pub address: String,
    pub created_at: i64,
}

impl UserProfile {
    /// The profile of a user.
    pub fn from_user(user: User) -> (p: Self)
        ensures
            p.id == user.id,
            p.name == user.name,
            p.username == user.username,
            p.email == user.email,
            p.address == user.address,
            p.created_at == user.created_at,
    {
        UserProfile {
            id: user.id,
            name: user.name,
            username: user.username,
            email: user.email,
            address: user.address,
            created_at: user.created_at,
        }
    }
}

/// Registration form.
#[derive(Debug, Clone)]
pub struct RegisterInput {
    pub name: String,
    pub username: String,
    pub email: String,
    pub password: String,
}

/// Login form.
#[derive(Debug, Clone)]
pub struct LoginInput {
    pub username: String,
    pub password: String,
}

/// A token and the profile it was issued for.
#[derive(Debug, Clone)]
pub struct AuthResponse {
    pub token: String,
    pub user: UserProfile,
}

/// A user's wallet; its key is stored apart.
#[derive(Debug, Clone)]
pub struct Wallet {
    pub id: String,
    pub user_email: String,
    pub address: String,
    pub key_id: Option<String>,
    pub created_at: i64,
    pub updated_at: i64,
}

impl Wallet {
    /// A wallet created at `now`, with no key yet.
    pub fn new(id: String, user_email: String, address: String, now: i64) -> (w: Self)
        ensures
            w.id == id,
            w.user_email == user_email,
            w.address == address,
            w.key_id is None,
            w.created_at == now,
            w.updated_at == now,
    {
        Wallet { id, user_email, address, key_id: None, created_at: now, updated_at: now }
    }

    /// The wallet referring to its key record `key_id`.
    pub fn with_key_id(self, key_id: String) -> (w: Self)
        ensures
            w.id == self.id,
            w.user_email == self.user_email,
            w.address == self.address,
            w.key_id == Some(key_id),
            w.created_at == self.created_at,
            w.updated_at == self.updated_at,
    {
        let mut w = self;
        w.key_id = Some(key_id);
        w
    }
}

/// What may be shown of a wallet.
#[derive(Debug, Clone)]
pub struct WalletInfo {
    pub id: String,
    pub user_email: String,
    pub address: String,
    pub created_at: i64,
}

impl WalletInfo {
    /// The shown part of a wallet.
    pub fn from_wallet(wallet: Wallet) -> (i: Self)
        ensures
            i.id == wallet.id,
            i.user_email == wallet.user_email,
            i.address == wallet.address,
            i.created_at == wallet.created_at,
    {
        WalletInfo { id: wallet.id, user_email: wallet.user_email, address: wallet.address, created_at: wallet.created_at }
    }
}

/// The encrypted key of a wallet.
#[derive(Debug, Clone)]
pub struct WalletKey {
    pub id: String,
    pub wallet_id: String,
    pub encrypted_private_key: String,
    pub encrypted_dek: String,
    pub master_key_id: String,
    pub dek_id: String,
    pub algorithm: String,
    pub pin_salt: String,
    pub pin_iv: String,
    pub dek_iv: String,
    pub master_iv: String,
    pub created_at: i64,
    pub updated_at: i64,
}

impl WalletKey {
    /// The key record of `wallet_id` holding an encrypted record, created at `now`.
    pub fn new(id: String, wallet_id: String, data: crate::crypto::WalletEncryptedData, now: i64) -> (k: Self)
        ensures
            k.id == id,
            k.wallet_id == wallet_id,
            k.encrypted_private_key == data.encrypted_private_key,
            k.encrypted_dek == data.encrypted_dek,
            k.master_key_id == data.master_key_identifier,
            k.dek_id == data.dek_id,
            k.algorithm == data.algorithm,
            k.pin_salt == data.pin_salt,
            k.pin_iv == data.pin_iv,
            k.dek_iv == data.dek_iv,
            k.master_iv == data.master_iv,
            k.created_at == now,
            k.updated_at == now,
    {
        WalletKey {
            id,
            wallet_id,
            encrypted_private_key: data.encrypted_private_key,
            encrypted_dek: data.encrypted_dek,
            master_key_id: data.master_key_identifier,
            dek_id: data.dek_id,
            algorithm: data.algorithm,
            pin_salt: data.pin_salt,
            pin_iv: data.pin_iv,
            dek_iv: data.dek_iv,
            master_iv: data.master_iv,
            created_at: now,
            updated_at: now,
        }
    }
}

/// `s` without its leading `⟨` characters and its trailing `⟩` characters.
pub open spec fn strip_id_brackets(s: Seq<char>) -> Seq<char>
    decreases s.len(),
{
    if s.len() > 0 && s[0] == '⟨' {
        strip_id_brackets(s.drop_first())
    } else if s.len() > 0 && s.last() == '⟩' {
        strip_id_brackets(s.drop_last())
    } else {
        s
    }
}

/// A record id without the brackets the database puts round escaped ids.
pub fn clean_record_id(id: &str) -> (r: String)
    ensures
        r@ == strip_id_brackets(id@),
{
    let v = crate::text::chars_of(id);
    let mut lo: usize = 0;
    let mut hi: usize = v.len();
    assert(v@.subrange(0, v@.len() as int) =~= v@);
    while lo < hi && v[lo] == '⟨'
        invariant
            v@ == id@,
            lo <= hi == v@.len(),
            strip_id_brackets(v@.subrange(lo as int, hi as int)) == strip_id_brackets(v@),
        decreases hi - lo,
    {
        assert(v@.subrange(lo as int, hi as int).drop_first() =~= v@.subrange(lo + 1, hi as int));
        lo = lo + 1;
    }
    if lo == hi {
        assert(v@.subrange(lo as int, hi as int) =~= Seq::<char>::empty());
    }
    while lo < hi && v[hi - 1] == '⟩'
        invariant
            v@ == id@,
            lo <= hi <= v@.len(),
            lo < hi ==> v@[lo as int] != '⟨',
            strip_id_brackets(v@.subrange(lo as int, hi as int)) == strip_id_brackets(v@),
        decreases hi - lo,
    {
        assert(v@.subrange(lo as int, hi as int).drop_last() =~= v@.subrange(lo as int, hi - 1));
        hi = hi - 1;
    }
    let mut out: Vec<char> = Vec::new();
    let mut i: usize = lo;
    while i < hi
        invariant
            v@ == id@,
            lo <= i <= hi <= v@.len(),
            out@ == v@.subrange(lo as int, i as int),
        decreases hi - i,
    {
        out.push(v[i]);
        i = i + 1;
    }
    crate::text::string_from_chars(out.as_slice())
}

} // verus!
