//! The resource sets that hosts create through the ABI: a script encoding,
//! a mounted game directory and a save directory, addressed by handle.
//!
//! Reaching into host memory and asking the file system whether a directory
//! exists happen at the ABI boundary; these functions take the bytes and the
//! answer and decide the status codes.
use crate::abi::{
    RfvpResourcesConfigV1, RFVP_NLS_GBK, RFVP_NLS_SHIFT_JIS, RFVP_NLS_UTF8,
    RFVP_STATUS_INVALID_ARGUMENT, RFVP_STATUS_INVALID_DATA, RFVP_STATUS_INVALID_HANDLE,
    RFVP_STATUS_NOT_FOUND, RFVP_STATUS_OK,
};
use crate::handle::{Handle, HandleRegistry, RegistryView};
use crate::host_types::Nls;
use vstd::prelude::*;

verus! {

/// Calls `std::str::from_utf8` and copies the text out: there is text
/// exactly when `bytes` are valid UTF-8, and it is what they decode to.
#[verifier::external_body]
fn utf8_text(bytes: &[u8]) -> (r: Option<String>)
    ensures
        r is Some <==> vstd::utf8::valid_utf8(bytes@),
        r matches Some(s) ==> s@ == vstd::utf8::decode_utf8(bytes@),
{
    match std::str::from_utf8(bytes) {
        Ok(text) => Some(text.to_owned()),
        Err(_) => None,
    }
}

/// The text a host passes as a pointer and a length, given the bytes behind
/// the pointer (`None` for a null pointer): a null pointer stands for the
/// empty text when the length is zero and is an invalid argument otherwise;
/// bytes that are not UTF-8 are invalid data.
pub fn read_utf8(bytes: Option<&[u8]>, len: usize) -> (r: Result<String, i32>)
    ensures
        bytes is None && len == 0 ==> (r matches Ok(s) && s@.len() == 0),
        bytes is None && len > 0 ==> r == Err::<String, i32>(RFVP_STATUS_INVALID_ARGUMENT),
        bytes matches Some(b) ==> match r {
            Ok(s) => vstd::utf8::valid_utf8(b@) && s@ == vstd::utf8::decode_utf8(b@),
            Err(status) => !vstd::utf8::valid_utf8(b@) && status == RFVP_STATUS_INVALID_DATA,
        },
{
    match bytes {
        None => if len == 0 {
            Ok(String::new())
        } else {
            Err(RFVP_STATUS_INVALID_ARGUMENT)
        },
        Some(b) => match utf8_text(b) {
            Some(text) => Ok(text),
            None => Err(RFVP_STATUS_INVALID_DATA),
        },
    }
}

/// One resource set.
pub struct HostResources {
    pub nls: Nls,
    pub game_root: Option<String>,
    pub save_root: Option<String>,
}

/// The script encoding an ABI code names.
pub open spec fn nls_from_abi_spec(value: u32) -> Result<Nls, i32> {
    if value == RFVP_NLS_SHIFT_JIS {
        Ok(Nls::ShiftJIS)
    } else if value == RFVP_NLS_GBK {
        Ok(Nls::GBK)
    } else if value == RFVP_NLS_UTF8 {
        Ok(Nls::UTF8)
    } else {
        Err(RFVP_STATUS_INVALID_ARGUMENT)
    }
}

/// Each accepted ABI encoding code names the encoding of the same name, no
/// two codes name one encoding, and every other code is an invalid argument.
pub proof fn lemma_nls_codes(value: u32, other: u32)
    ensures
        nls_from_abi_spec(RFVP_NLS_SHIFT_JIS) == Ok::<Nls, i32>(Nls::ShiftJIS),
        nls_from_abi_spec(RFVP_NLS_GBK) == Ok::<Nls, i32>(Nls::GBK),
        nls_from_abi_spec(RFVP_NLS_UTF8) == Ok::<Nls, i32>(Nls::UTF8),
        nls_from_abi_spec(value) is Ok <==> (value == RFVP_NLS_SHIFT_JIS || value == RFVP_NLS_GBK
            || value == RFVP_NLS_UTF8),
        nls_from_abi_spec(value) is Err ==> nls_from_abi_spec(value) == Err::<Nls, i32>(
            RFVP_STATUS_INVALID_ARGUMENT,
        ),
        nls_from_abi_spec(value) is Ok && nls_from_abi_spec(value) == nls_from_abi_spec(other)
            ==> value == other,
{
}

pub fn nls_from_abi(value: u32) -> (r: Result<Nls, i32>)
    ensures
        r == nls_from_abi_spec(value),
        value == RFVP_NLS_SHIFT_JIS ==> r == Ok::<Nls, i32>(Nls::ShiftJIS),
        value == RFVP_NLS_GBK ==> r == Ok::<Nls, i32>(Nls::GBK),
        value == RFVP_NLS_UTF8 ==> r == Ok::<Nls, i32>(Nls::UTF8),
        value != RFVP_NLS_SHIFT_JIS && value != RFVP_NLS_GBK && value != RFVP_NLS_UTF8 ==> r
            == Err::<Nls, i32>(RFVP_STATUS_INVALID_ARGUMENT),
{
    if value == RFVP_NLS_SHIFT_JIS {
        Ok(Nls::ShiftJIS)
    } else if value == RFVP_NLS_GBK {
        Ok(Nls::GBK)
    } else if value == RFVP_NLS_UTF8 {
        Ok(Nls::UTF8)
    } else {
        Err(RFVP_STATUS_INVALID_ARGUMENT)
    }
}

/// The characters of an optional string.
pub open spec fn opt_chars(o: Option<String>) -> Option<Seq<char>> {
    match o {
        Some(s) => Some(s@),
        None => None,
    }
}

/// The optional text that a string read from the host stands for: empty means none.
pub open spec fn nonempty_text(text: Result<String, i32>) -> Result<Option<Seq<char>>, i32> {
    match text {
        Ok(s) => if s@.len() == 0 {
            Ok(None)
        } else {
            Ok(Some(s@))
        },
        Err(status) => Err(status),
    }
}

fn nonempty(text: Result<String, i32>) -> (r: Result<Option<String>, i32>)
    ensures
        match r {
            Ok(o) => nonempty_text(text) == Ok::<Option<Seq<char>>, i32>(opt_chars(o)),
            Err(status) => nonempty_text(text) == Err::<Option<Seq<char>>, i32>(status),
        },
{
    match text {
        Ok(value) => if value.as_str().is_empty() {
            Ok(None)
        } else {
            Ok(Some(value))
        },
        Err(status) => Err(status),
    }
}

/// Creates a resource set from a configuration whose C layout takes
/// `layout_size` bytes and the save-root text read from the host; returns the
/// new handle or the refusing status.
pub fn resources_create(
    resources: &mut HandleRegistry<HostResources>,
    config: &RfvpResourcesConfigV1,
    layout_size: usize,
    save_root: Result<String, i32>,
) -> (r: Result<u64, i32>)
    requires
        old(resources)@.wf(),
        old(resources)@.can_insert(),
    ensures
        final(resources)@.wf(),
        (config.struct_size as int) < layout_size ==> r == Err::<u64, i32>(
            RFVP_STATUS_INVALID_ARGUMENT,
        ) && final(resources)@ == old(resources)@,
        (config.struct_size as int) >= layout_size && nls_from_abi_spec(config.nls) is Err ==> r
            == Err::<u64, i32>(RFVP_STATUS_INVALID_ARGUMENT) && final(resources)@ == old(resources)@,
        (config.struct_size as int) >= layout_size && nls_from_abi_spec(config.nls) is Ok
            && nonempty_text(save_root) is Err ==> r == Err::<u64, i32>(
            nonempty_text(save_root)->Err_0,
        ) && final(resources)@ == old(resources)@,
        r matches Ok(raw) ==> {
            &&& final(resources)@.lookup(raw) matches Some(res) && {
                &&& Ok::<Nls, i32>(res.nls) == nls_from_abi_spec(config.nls)
                &&& config.nls == RFVP_NLS_SHIFT_JIS ==> res.nls == Nls::ShiftJIS
                &&& config.nls == RFVP_NLS_GBK ==> res.nls == Nls::GBK
                &&& config.nls == RFVP_NLS_UTF8 ==> res.nls == Nls::UTF8
                &&& res.game_root is None
                &&& Ok::<Option<Seq<char>>, i32>(opt_chars(res.save_root)) == nonempty_text(save_root)
            }
            &&& (final(resources)@, raw) == old(resources)@.insert_result(
                final(resources)@.lookup(raw)->0,
            )
        },
        (config.struct_size as int) >= layout_size && nls_from_abi_spec(config.nls) is Ok
            && nonempty_text(save_root) is Ok ==> r is Ok,
{
    if (config.struct_size as usize) < layout_size {
        return Err(RFVP_STATUS_INVALID_ARGUMENT);
    }
    let nls = match nls_from_abi(config.nls) {
        Ok(nls) => nls,
        Err(status) => return Err(status),
    };
    let save_root = match nonempty(save_root) {
        Ok(value) => value,
        Err(status) => return Err(status),
    };
    let ghost pre = resources@;
    let entry = HostResources { nls, game_root: None, save_root };
    let ghost stored = entry;
    let handle = resources.insert(entry);
    proof {
        crate::handle::lemma_insert_then_lookup(pre, stored);
        let (post, raw) = pre.insert_result(stored);
        let index = if pre.free.len() > 0 {
            pre.free.last()
        } else {
            pre.values.len() as u32
        };
        let generation = if pre.free.len() > 0 {
            crate::handle::next_generation_spec(pre.generations[index as int])
        } else {
            1u32
        };
        crate::handle::lemma_raw_parts_round_trip(index, generation);
        assert(post.lookup(raw) == Some(stored));
    }
    Ok(handle.raw())
}

/// Drops the resource set that `raw` names, if it is live.
pub fn resources_destroy(resources: &mut HandleRegistry<HostResources>, raw: u64)
    requires
        old(resources)@.wf(),
    ensures
        final(resources)@ == old(resources)@.remove_result(raw).0,
        final(resources)@.wf(),
{
    let _ = resources.remove(Handle::from_raw(raw));
}

/// Unmounts the game directory of the resource set that `raw` names, if it is live.
pub fn resources_clear(resources: &mut HandleRegistry<HostResources>, raw: u64)
    requires
        old(resources)@.wf(),
    ensures
        final(resources)@.wf(),
        match old(resources)@.lookup(raw) {
            Some(res) => final(resources)@ == old(resources)@.with_value(
                crate::handle::raw_index(raw) as int,
                Some(HostResources { game_root: None, ..res }),
            ),
            None => final(resources)@ == old(resources)@,
        },
{
    match resources.get_mut(Handle::from_raw(raw)) {
        Some(res) => {
            res.game_root = None;
        },
        None => {},
    }
}

/// The status of mounting a game directory: the path text read from the host
/// must be there and non-empty, the handle live, and the path a directory.
pub open spec fn mount_status(
    reg: RegistryView<HostResources>,
    raw: u64,
    path: Result<String, i32>,
    is_dir: bool,
) -> i32 {
    match path {
        Err(status) => status,
        Ok(p) => if p@.len() == 0 {
            RFVP_STATUS_INVALID_ARGUMENT
        } else if reg.lookup(raw) is None {
            RFVP_STATUS_INVALID_HANDLE
        } else if !is_dir {
            RFVP_STATUS_NOT_FOUND
        } else {
            RFVP_STATUS_OK
        },
    }
}

/// Mounts `path` as the game directory of the resource set that `raw` names;
/// `is_dir` says whether the file system holds a directory at `path`.
pub fn resources_mount_directory(
    resources: &mut HandleRegistry<HostResources>,
    raw: u64,
    path: Result<String, i32>,
    is_dir: bool,
) -> (status: i32)
    requires
        old(resources)@.wf(),
    ensures
        final(resources)@.wf(),
        status == mount_status(old(resources)@, raw, path, is_dir),
        path is Ok && status == RFVP_STATUS_OK ==> (old(resources)@.lookup(raw) matches Some(res)
            && path matches Ok(p) && final(resources)@ == old(resources)@.with_value(
            crate::handle::raw_index(raw) as int,
            Some(HostResources { game_root: Some(p), ..res }),
        )),
        !(path is Ok && status == RFVP_STATUS_OK) ==> final(resources)@ == old(resources)@,
{
    let path = match path {
        Ok(p) => {
            if p.as_str().is_empty() {
                return RFVP_STATUS_INVALID_ARGUMENT;
            }
            p
        },
        Err(status) => return status,
    };
    let ghost p = path;
    if resources.get(Handle::from_raw(raw)).is_none() {
        return RFVP_STATUS_INVALID_HANDLE;
    }
    if !is_dir {
        return RFVP_STATUS_NOT_FOUND;
    }
    match resources.get_mut(Handle::from_raw(raw)) {
        Some(res) => {
            res.game_root = Some(path);
            RFVP_STATUS_OK
        },
        None => RFVP_STATUS_INVALID_HANDLE,
    }
}

/// Sets or, for an empty path, clears the save directory of the resource set
/// that `raw` names.
pub fn resources_set_save_root(
    resources: &mut HandleRegistry<HostResources>,
    raw: u64,
    path: Result<String, i32>,
) -> (status: i32)
    requires
        old(resources)@.wf(),
    ensures
        final(resources)@.wf(),
        path is Err ==> status == path->Err_0 && final(resources)@ == old(resources)@,
        path is Ok && old(resources)@.lookup(raw) is None ==> status == RFVP_STATUS_INVALID_HANDLE
            && final(resources)@ == old(resources)@,
        path is Ok && old(resources)@.lookup(raw) is Some ==> {
            let res = old(resources)@.lookup(raw)->0;
            &&& status == RFVP_STATUS_OK
            &&& final(resources)@.generations == old(resources)@.generations
            &&& final(resources)@.free == old(resources)@.free
            &&& final(resources)@.values.len() == old(resources)@.values.len()
            &&& forall|i: int|
                0 <= i < old(resources)@.values.len() && i != crate::handle::raw_index(raw) as int
                    ==> final(resources)@.values[i] == old(resources)@.values[i]
            &&& final(resources)@.lookup(raw) matches Some(new_res) && {
                &&& new_res.nls == res.nls
                &&& new_res.game_root == res.game_root
                &&& Ok::<Option<Seq<char>>, i32>(opt_chars(new_res.save_root)) == nonempty_text(path)
            }
        },
{
    let path = match nonempty(path) {
        Ok(value) => value,
        Err(status) => return status,
    };
    match resources.get_mut(Handle::from_raw(raw)) {
        Some(res) => {
            res.save_root = path;
            RFVP_STATUS_OK
        },
        None => RFVP_STATUS_INVALID_HANDLE,
    }
}

/// Once a resource set is destroyed, its handle refuses a mount with a
/// non-empty path as an invalid handle, whatever the file system holds.
pub proof fn lemma_destroyed_resources_refuse_mount(
    reg: RegistryView<HostResources>,
    raw: u64,
    path: String,
    is_dir: bool,
)
    requires
        reg.wf(),
        path@.len() > 0,
    ensures
        mount_status(reg.remove_result(raw).0, raw, Ok(path), is_dir) == RFVP_STATUS_INVALID_HANDLE,
{
    crate::handle::lemma_remove_then_lookup(reg, raw);
}

} // verus!
