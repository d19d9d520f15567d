//! The edge configuration: assembled from an encryption key, a supernode
//! address and a community name, and checked by the C library.

use vstd::prelude::*;
use vstd::utf8::encode_utf8;

use crate::util::error::N2NError;

verus! {

/// The size in bytes of the community name field of the C configuration.
pub const N2N_COMMUNITY_SIZE: usize = 20;

/// The packet transforms that an edge configuration can select.
#[derive(Debug, Clone, Copy, PartialEq, Eq, Structural)]
pub enum Transform {
    Null,
    Twofish,
    Aes,
    ChaCha20,
    Speck,
}

/// The values that the library writes into the C edge configuration, over
/// the defaults that the C library fills in itself.
#[derive(Debug)]
pub struct EdgeConf {
    /// The packet transform.
    pub transop: Transform,
    /// The encryption key, handed on as a C string.
    pub encrypt_key: String,
    /// The bytes written to the front of the community name field.
    pub community_name: Vec<u8>,
    /// The supernode addresses added to the configuration, in order.
    pub supernodes: Vec<String>,
}

/// What an `EdgeConfBuilder` holds, as text.
pub struct EdgeConfBuilderView {
    pub encrypt_key: Seq<char>,
    pub supernode: Seq<char>,
    pub community_name: Seq<char>,
}

/// Collects the encryption key, the supernode address and the community
/// name of an edge configuration.
#[derive(Copy, Clone)]
pub struct EdgeConfBuilder<'a> {
    encrypt_key: &'a str,
    supernode: &'a str,
    community_name: &'a str,
}

impl<'a> View for EdgeConfBuilder<'a> {
    type V = EdgeConfBuilderView;

    closed spec fn view(&self) -> EdgeConfBuilderView {
        EdgeConfBuilderView {
            encrypt_key: self.encrypt_key@,
            supernode: self.supernode@,
            community_name: self.community_name@,
        }
    }
}

/// What the configuration check of the C library answers with `code`:
/// `0` accepts the configuration, `-1` reports an empty community name,
/// `-2` reports that no supernode is set, and every other code is an
/// unknown error.
pub open spec fn verify_outcome(code: i32) -> Result<(), N2NError> {
    if code == 0 {
        Ok(())
    } else if code == -1 {
        Err(N2NError::CommunityNameNull)
    } else if code == -2 {
        Err(N2NError::SnNumIsZero)
    } else {
        Err(N2NError::UnKnown)
    }
}

/// A string that can be handed on as a C string: its UTF-8 bytes hold no
/// NUL byte.
pub open spec fn is_c_text(s: Seq<char>) -> bool {
    !encode_utf8(s).contains(0u8)
}

/// The inputs from which a configuration can be assembled: key and
/// supernode can be handed on as C strings, and the community name fits its
/// field.
pub open spec fn can_assemble(v: EdgeConfBuilderView) -> bool {
    &&& is_c_text(v.encrypt_key)
    &&& is_c_text(v.supernode)
    &&& encode_utf8(v.community_name).len() as usize <= N2N_COMMUNITY_SIZE
}

/// `conf` is the configuration assembled from `v`: the AES transform, the
/// key, the bytes of the community name, and the supernode as the only one.
pub open spec fn assembled_from(v: EdgeConfBuilderView, conf: EdgeConf) -> bool {
    &&& conf.transop == Transform::Aes
    &&& conf.encrypt_key@ == v.encrypt_key
    &&& conf.community_name@ == encode_utf8(v.community_name)
    &&& conf.supernodes@.len() == 1
    &&& conf.supernodes@[0]@ == v.supernode
}

/// Turns the answer of the C library's configuration check into the
/// library's result.
pub fn check_verify_code(code: i32) -> (r: Result<(), N2NError>)
    ensures
        r == verify_outcome(code),
{
    if code == 0 {
        Ok(())
    } else if code == -1 {
        Err(N2NError::CommunityNameNull)
    } else if code == -2 {
        Err(N2NError::SnNumIsZero)
    } else {
        Err(N2NError::UnKnown)
    }
}

/// Whether `bytes` holds no NUL byte.
fn holds_no_nul(bytes: &[u8]) -> (r: bool)
    ensures
        r == !bytes@.contains(0u8),
{
    let len = bytes.len();
    let mut i: usize = 0;
    while i < len
        invariant
            len == bytes@.len(),
            i <= len,
            forall|j: int| 0 <= j < i ==> bytes@[j] != 0,
        decreases len - i,
    {
        if bytes[i] == 0 {
            assert(bytes@[i as int] == 0);
            return false;
        }
        i = i + 1;
    }
    true
}

impl<'a> EdgeConfBuilder<'a> {
    /// Whether a configuration can be assembled from what the builder holds:
    /// key and supernode hold no NUL byte and the community name fits its
    /// field.
    pub fn can_assemble(&self) -> (r: bool)
        ensures
            r == can_assemble(self@),
            r == (!encode_utf8(self@.encrypt_key).contains(0u8) && !encode_utf8(
                self@.supernode,
            ).contains(0u8) && encode_utf8(self@.community_name).len() as usize
                <= N2N_COMMUNITY_SIZE),
    {
        let key_ok = holds_no_nul(self.encrypt_key.as_bytes());
        let supernode_ok = holds_no_nul(self.supernode.as_bytes());
        key_ok && supernode_ok && self.community_name.len() <= N2N_COMMUNITY_SIZE
    }

    /// A builder with an empty key, supernode and community name.
    pub fn new() -> (b: Self)
        ensures
            b@.encrypt_key == Seq::<char>::empty(),
            b@.supernode == Seq::<char>::empty(),
            b@.community_name == Seq::<char>::empty(),
    {
        let b = EdgeConfBuilder { encrypt_key: "", supernode: "", community_name: "" };
        proof {
            reveal_strlit("");
        }
        b
    }

    /// Sets the encryption key.
    pub fn encrypt_key(&mut self, encrypt_key: &'a str) -> (r: &mut EdgeConfBuilder<'a>)
        ensures
            r@.encrypt_key == encrypt_key@,
            r@.supernode == old(self)@.supernode,
            r@.community_name == old(self)@.community_name,
            *final(self) == *final(r),
    {
        self.encrypt_key = encrypt_key;
        self
    }

    /// Sets the supernode address.
    pub fn supernode(&mut self, supernode: &'a str) -> (r: &mut EdgeConfBuilder<'a>)
        ensures
            r@.encrypt_key == old(self)@.encrypt_key,
            r@.supernode == supernode@,
            r@.community_name == old(self)@.community_name,
            *final(self) == *final(r),
    {
        self.supernode = supernode;
        self
    }

    /// Sets the community name.
    pub fn community_name(&mut self, community_name: &'a str) -> (r: &mut EdgeConfBuilder<'a>)
        ensures
            r@.encrypt_key == old(self)@.encrypt_key,
            r@.supernode == old(self)@.supernode,
            r@.community_name == community_name@,
            *final(self) == *final(r),
    {
        self.community_name = community_name;
        self
    }

    /// Assembles the configuration that is handed to the C library.
    pub fn to_conf(&self) -> (conf: EdgeConf)
        requires
            can_assemble(self@),
        ensures
            assembled_from(self@, conf),
            conf.transop == Transform::Aes,
            conf.encrypt_key@ == self@.encrypt_key,
            conf.community_name@ == encode_utf8(self@.community_name),
            conf.supernodes@.len() == 1,
            conf.supernodes@[0]@ == self@.supernode,
            conf.community_name@.len() <= N2N_COMMUNITY_SIZE,
    {
        let name = self.community_name.as_bytes();
        let name_len = name.len();
        assert(name_len == name@.len());
        let community_name = vstd::slice::slice_to_vec(name);
        let mut supernodes: Vec<String> = Vec::new();
        supernodes.push(self.supernode.to_owned());
        EdgeConf {
            transop: Transform::Aes,
            encrypt_key: self.encrypt_key.to_owned(),
            community_name,
            supernodes,
        }
    }

    /// Assembles the configuration and has `verify_conf` check it, as the C
    /// library's configuration check does: the configuration comes back when
    /// the check answers `0`, and otherwise the error that the answer stands
    /// for (see `verify_outcome`).
    pub fn build<F>(self, verify_conf: F) -> (r: Result<EdgeConf, N2NError>) where
        F: FnOnce(&EdgeConf) -> i32,

        requires
            can_assemble(self@),
            forall|conf: &EdgeConf| verify_conf.requires((conf,)),
        ensures
            exists|conf: EdgeConf, code: i32|
                #[trigger] verify_conf.ensures((&conf,), code) && {
                    &&& assembled_from(self@, conf)
                    &&& (r is Ok <==> code == 0)
                    &&& (r matches Ok(c) ==> c == conf)
                    &&& (r matches Err(e) ==> verify_outcome(code) == Err::<(), N2NError>(e))
                },
            r matches Ok(c) ==> {
                &&& c.transop == Transform::Aes
                &&& c.encrypt_key@ == self@.encrypt_key
                &&& c.community_name@ == encode_utf8(self@.community_name)
                &&& c.supernodes@.len() == 1
                &&& c.supernodes@[0]@ == self@.supernode
            },
    {
        let conf = self.to_conf();
        let code = verify_conf(&conf);
        match check_verify_code(code) {
            Ok(()) => Ok(conf),
            Err(e) => Err(e),
        }
    }
}

/// An assembled configuration always selects AES, carries the key as it
/// was given, holds exactly the UTF-8 bytes of the community name, unchanged,
/// and names the given supernode as its only one.
pub proof fn theorem_assembled_conf_contents(v: EdgeConfBuilderView, conf: EdgeConf)
    requires
        assembled_from(v, conf),
    ensures
        conf.transop == Transform::Aes,
        conf.encrypt_key@ == v.encrypt_key,
        conf.community_name@ == encode_utf8(v.community_name),
        conf.community_name@.len() == encode_utf8(v.community_name).len(),
        forall|i: int|
            0 <= i < conf.community_name@.len() ==> #[trigger] conf.community_name@[i]
                == encode_utf8(v.community_name)[i],
        conf.supernodes@ =~= seq![conf.supernodes@[0]],
        conf.supernodes@[0]@ == v.supernode,
{
}

/// Whatever the length of the key, a configuration can be assembled from
/// every key and supernode without a NUL byte and every community name of at
/// most 20 UTF-8 bytes; and it cannot be when any of these fails.
pub proof fn theorem_can_assemble_exactly(v: EdgeConfBuilderView)
    ensures
        (!encode_utf8(v.encrypt_key).contains(0u8) && !encode_utf8(v.supernode).contains(0u8)
            && encode_utf8(v.community_name).len() <= 20) ==> can_assemble(v),
        can_assemble(v) ==> !encode_utf8(v.encrypt_key).contains(0u8),
        can_assemble(v) ==> !encode_utf8(v.supernode).contains(0u8),
        encode_utf8(v.community_name).len() > 20 && encode_utf8(v.community_name).len()
            <= usize::MAX ==> !can_assemble(v),
{
}

} // verus!
