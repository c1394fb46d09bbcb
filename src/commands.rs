use vstd::prelude::*;
use crate::debug_args::{add_debug_args, has_debug_flag, is_debug_flag, strip_debug_args, with_debug_flags, without_debug_flags};
use crate::error::VexError;
use crate::record::{QemuConfig, RecordView, opt_view, strs_view};
use crate::store::{ConfigStore, load_spec, with_desc};

verus! {

/// The arguments that a save stores: without debug flags where the user
/// chose to strip them.
pub open spec fn saved_args(args: Seq<Seq<char>>, strip: bool) -> Seq<Seq<char>> {
    if strip {
        without_debug_flags(args)
    } else {
        args
    }
}

/// The arguments that an exec hands to the executable.
pub open spec fn exec_args_spec(args: Seq<Seq<char>>, debug: bool) -> Seq<Seq<char>> {
    if debug {
        with_debug_flags(args)
    } else {
        args
    }
}

/// Whether saving under `name` must first ask before it replaces a record.
pub fn save_needs_confirmation(store: &ConfigStore, name: &String, force: bool) -> (r: bool)
    requires
        store.wf(),
    ensures
        r == (store@.contains_key(name@) && !force),
{
    store.contains(name) && !force
}

/// Saves a configuration. `strip` is the user's choice to drop debug flags;
/// `overwrite` is the user's answer to the question whether to replace an
/// existing record, which counts only where that question was due. The
/// result is the stored record, or `None` where the save was cancelled.
pub fn save_command(
    store: &mut ConfigStore,
    name: String,
    qemu_bin: String,
    args: Vec<String>,
    desc: Option<String>,
    force: bool,
    strip: bool,
    overwrite: bool,
) -> (r: Option<QemuConfig>)
    requires
        old(store).wf(),
    ensures
        final(store).wf(),
        old(store)@.contains_key(name@) && !force && !overwrite ==> r is None && final(store)@ == old(store)@,
        !(old(store)@.contains_key(name@) && !force && !overwrite) ==> ({
            let rec = RecordView {
                qemu_bin: qemu_bin@,
                args: saved_args(strs_view(args@), strip),
                desc: opt_view(desc),
            };
            r is Some && r->Some_0@ == rec && final(store)@ == old(store)@.insert(name@, Some(rec))
        }),
{
    let final_args = if strip {
        strip_debug_args(&args)
    } else {
        args
    };
    if save_needs_confirmation(store, &name, force) && !overwrite {
        return None;
    }
    let config = QemuConfig::new(qemu_bin, final_args, desc);
    store.save(name, config.duplicate());
    Some(config)
}

/// The executable and the arguments with which to run the configuration
/// `name`: the stored arguments, followed by the debug flags in debug mode.
/// The store is only read.
pub fn exec_plan(store: &ConfigStore, name: &String, debug: bool) -> (r: Result<(String, Vec<String>), VexError>)
    requires
        store.wf(),
    ensures
        match load_spec(store@, name@) {
            Err(e) => r == Err::<(String, Vec<String>), VexError>(e),
            Ok(rec) => r is Ok && r->Ok_0.0@ == rec.qemu_bin
                && strs_view(r->Ok_0.1@) == exec_args_spec(rec.args, debug),
        },
{
    match store.load(name) {
        Err(e) => Err(e),
        Ok(config) => {
            let args = if debug {
                add_debug_args(&config.args)
            } else {
                config.args
            };
            Ok((config.qemu_bin, args))
        },
    }
}

/// How a run of the executable ended: `started` is false where it could
/// not be launched; `code` is its exit code, if it had one.
pub fn exec_outcome(started: bool, success: bool, code: Option<i32>) -> (r: Result<(), VexError>)
    ensures
        !started ==> r == Err::<(), VexError>(VexError::SpawnFailed),
        started && success ==> r is Ok,
        started && !success ==> r == Err::<(), VexError>(
            VexError::ChildNonZeroExit(
                match code {
                    Some(c) => c,
                    None => -1i32,
                },
            ),
        ),
{
    if !started {
        Err(VexError::SpawnFailed)
    } else if success {
        Ok(())
    } else {
        match code {
            Some(c) => Err(VexError::ChildNonZeroExit(c)),
            None => Err(VexError::ChildNonZeroExit(-1)),
        }
    }
}

/// Removes the configuration `name`.
pub fn remove_command(store: &mut ConfigStore, name: &String) -> (r: Result<(), VexError>)
    requires
        old(store).wf(),
    ensures
        final(store).wf(),
        old(store)@.contains_key(name@) ==> r is Ok && final(store)@ == old(store)@.remove(name@),
        !old(store)@.contains_key(name@) ==> r == Err::<(), VexError>(VexError::NotFound)
            && final(store)@ == old(store)@,
{
    store.delete(name)
}

/// Whether a rename must first ask before it replaces the record under
/// `new_name`; fails where `old_name` holds nothing.
pub fn rename_needs_confirmation(store: &ConfigStore, old_name: &String, new_name: &String, force: bool) -> (r:
    Result<bool, VexError>)
    requires
        store.wf(),
    ensures
        !store@.contains_key(old_name@) ==> r == Err::<bool, VexError>(VexError::NotFound),
        store@.contains_key(old_name@) ==> r == Ok::<bool, VexError>(store@.contains_key(new_name@) && !force),
{
    if !store.contains(old_name) {
        return Err(VexError::NotFound);
    }
    Ok(store.contains(new_name) && !force)
}

/// Renames a configuration. `overwrite` is the user's answer to the
/// question whether to replace the record under `new_name`, which counts
/// only where that question was due. The result is the record as now
/// stored, or `None` where the rename was cancelled.
pub fn rename_command(
    store: &mut ConfigStore,
    old_name: &String,
    new_name: &String,
    desc: Option<String>,
    force: bool,
    overwrite: bool,
) -> (r: Result<Option<QemuConfig>, VexError>)
    requires
        old(store).wf(),
    ensures
        final(store).wf(),
        !old(store)@.contains_key(old_name@) ==> r == Err::<Option<QemuConfig>, VexError>(VexError::NotFound)
            && final(store)@ == old(store)@,
        old(store)@.contains_key(old_name@) && old(store)@.contains_key(new_name@) && !force && !overwrite
            ==> r == Ok::<Option<QemuConfig>, VexError>(None) && final(store)@ == old(store)@,
        old(store)@.contains_key(old_name@) && !(old(store)@.contains_key(new_name@) && !force && !overwrite)
            ==> match load_spec(old(store)@, old_name@) {
                Err(e) => r == Err::<Option<QemuConfig>, VexError>(e) && final(store)@ == old(store)@,
                Ok(rec) => r is Ok && r->Ok_0 is Some && r->Ok_0->Some_0@ == with_desc(rec, opt_view(desc))
                    && final(store)@ == old(store)@.insert(new_name@, Some(with_desc(rec, opt_view(desc)))).remove(old_name@),
            },
{
    let ask = rename_needs_confirmation(store, old_name, new_name, force)?;
    if ask && !overwrite {
        return Ok(None);
    }
    match store.rename(old_name, new_name, desc) {
        Ok(c) => Ok(Some(c)),
        Err(e) => Err(e),
    }
}

/// Where the user chose to strip debug flags, the stored arguments hold
/// neither `-s` nor `-S`, wherever they stood.
pub proof fn lemma_strip_on_save(args: Seq<Seq<char>>)
    ensures
        !has_debug_flag(saved_args(args, true)),
{
    broadcast use vstd::seq_lib::group_filter_ensures;

    let s = saved_args(args, true);
    assert forall|i: int| 0 <= i < s.len() implies !is_debug_flag(#[trigger] s[i]) by {}
}

/// In debug mode, stored arguments `[a, b]` run as `[a, b, -s, -S]`.
pub proof fn lemma_exec_debug_args(a: Seq<char>, b: Seq<char>)
    ensures
        exec_args_spec(seq![a, b], true) == seq![a, b, "-s"@, "-S"@],
{
    assert(exec_args_spec(seq![a, b], true) =~= seq![a, b, "-s"@, "-S"@]);
}

} // verus!
