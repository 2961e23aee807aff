//! Session planning: the fixed initialization sequence, the per-session
//! query plan built from the requested keys and the channel catalog, and the
//! clock the worker stamps samples with.
//!
//! The worker loop itself does I/O and lives with the session runtime; every
//! decision it takes — which commands to send, which keys to query, how to
//! decode and commit what comes back — is a function here or in the sibling
//! modules.

use vstd::prelude::*;
use vstd::string::StringExecFns;
use crate::channels::BmwChannelConfig;
use crate::channels::DecodeConfig;
use crate::pids::pid_for_key;
use crate::pids::spec_pid_for_key;
use crate::text::str_eq;

verus! {

/// The adapter initialization sequence: reset, echo off, linefeeds off,
/// headers off, spaces off, automatic protocol selection. The reset
/// command's response is never validated; every later one must be accepted.
pub fn elm_init_commands() -> (r: Vec<&'static str>)
    ensures
        r@.len() == 6,
        r@[0]@ == "ATZ"@,
        r@[1]@ == "ATE0"@,
        r@[2]@ == "ATL0"@,
        r@[3]@ == "ATH0"@,
        r@[4]@ == "ATS0"@,
        r@[5]@ == "ATSP0"@,
{
    let mut v: Vec<&'static str> = Vec::new();
    v.push("ATZ");
    v.push("ATE0");
    v.push("ATL0");
    v.push("ATH0");
    v.push("ATS0");
    v.push("ATSP0");
    v
}

/// The default key list used when the caller selects none.
pub fn default_parameter_keys() -> (r: Vec<String>)
    ensures
        r@.len() == 1,
        r@[0]@ == "engine-rpm"@,
{
    let mut v: Vec<String> = Vec::new();
    v.push(String::from_str("engine-rpm"));
    v
}

/// The standard-PID lane of a query plan: each requested key the fixed
/// table knows, with its request command, in request order.
pub open spec fn spec_pid_plan(keys: Seq<Seq<char>>) -> Seq<(Seq<char>, Seq<char>)>
    decreases keys.len(),
{
    if keys.len() == 0 {
        seq![]
    } else {
        let rest = spec_pid_plan(keys.drop_first());
        match spec_pid_for_key(keys[0]) {
            Some(cmd) => seq![(keys[0], cmd)] + rest,
            None => rest,
        }
    }
}

/// The standard-PID lane, falling back to the single default channel when
/// no requested key is recognized, so a live session always queries
/// something.
pub open spec fn spec_pid_plan_with_fallback(keys: Seq<Seq<char>>) -> Seq<
    (Seq<char>, Seq<char>),
> {
    if spec_pid_plan(keys).len() == 0 {
        seq![("engine-rpm"@, "010C"@)]
    } else {
        spec_pid_plan(keys)
    }
}

/// Builds the standard-PID lane of the query plan for the requested keys.
pub fn build_pid_pairs(selected: &Vec<String>) -> (r: Vec<(String, String)>)
    ensures
        r@.map_values(|p: (String, String)| (p.0@, p.1@)) == spec_pid_plan_with_fallback(
            selected@.map_values(|k: String| k@),
        ),
        r@.len() >= 1,
{
    let ghost kv = selected@.map_values(|k: String| k@);
    let mut out: Vec<(String, String)> = Vec::new();
    let mut idx: usize = 0;
    proof {
        assert(kv.skip(0) =~= kv);
        assert(out@.map_values(|p: (String, String)| (p.0@, p.1@)) + spec_pid_plan(kv)
            =~= spec_pid_plan(kv));
    }
    while idx < selected.len()
        invariant
            kv == selected@.map_values(|k: String| k@),
            idx <= selected@.len(),
            out@.map_values(|p: (String, String)| (p.0@, p.1@)) + spec_pid_plan(
                kv.skip(idx as int),
            ) == spec_pid_plan(kv),
        decreases selected@.len() - idx,
    {
        let key = &selected[idx];
        proof {
            assert(kv.skip(idx as int)[0] == kv[idx as int]);
            assert(kv.skip(idx as int).drop_first() =~= kv.skip(idx as int + 1));
        }
        match pid_for_key(key.as_str()) {
            Some(cmd) => {
                let ghost before = out@;
                out.push((key.clone(), String::from_str(cmd)));
                proof {
                    assert(out@.map_values(|p: (String, String)| (p.0@, p.1@)) =~= before.map_values(
                        |p: (String, String)| (p.0@, p.1@),
                    ) + seq![(kv[idx as int], cmd@)]);
                    assert(before.map_values(|p: (String, String)| (p.0@, p.1@)) + (seq![
                        (kv[idx as int], cmd@),
                    ] + spec_pid_plan(kv.skip(idx as int + 1))) =~= out@.map_values(
                        |p: (String, String)| (p.0@, p.1@),
                    ) + spec_pid_plan(kv.skip(idx as int + 1)));
                }
            },
            None => {},
        }
        idx = idx + 1;
    }
    proof {
        assert(kv.skip(idx as int) =~= Seq::<Seq<char>>::empty());
        assert(out@.map_values(|p: (String, String)| (p.0@, p.1@)) =~= spec_pid_plan(kv));
    }
    if out.len() == 0 {
        out.push((String::from_str("engine-rpm"), String::from_str("010C")));
        proof {
            assert(out@.map_values(|p: (String, String)| (p.0@, p.1@)) =~= seq![
                ("engine-rpm"@, "010C"@),
            ]);
        }
    }
    out
}

/// The view of a catalog entry list: key, command, and descriptor of each.
pub open spec fn catalog_view(catalog: Seq<(String, BmwChannelConfig)>) -> Seq<
    (Seq<char>, Seq<char>, DecodeConfig),
> {
    catalog.map_values(|e: (String, BmwChannelConfig)| (e.0@, e.1.command@, e.1.decode))
}

/// The first catalog entry for a key, by exact match, if any.
pub open spec fn spec_catalog_find(
    cat: Seq<(Seq<char>, Seq<char>, DecodeConfig)>,
    key: Seq<char>,
) -> Option<(Seq<char>, DecodeConfig)>
    decreases cat.len(),
{
    if cat.len() == 0 {
        None
    } else if cat[0].0 == key {
        Some((cat[0].1, cat[0].2))
    } else {
        spec_catalog_find(cat.drop_first(), key)
    }
}

/// Looks a requested key up in the channel catalog, first match wins.
pub fn catalog_find<'a>(catalog: &'a Vec<(String, BmwChannelConfig)>, key: &str) -> (r: Option<
    &'a BmwChannelConfig,
>)
    ensures
        r is Some <==> spec_catalog_find(catalog_view(catalog@), key@) is Some,
        r matches Some(c) ==> spec_catalog_find(catalog_view(catalog@), key@) == Some(
            (c.command@, c.decode),
        ),
{
    let ghost cv = catalog_view(catalog@);
    let mut idx: usize = 0;
    proof {
        assert(cv.skip(0) =~= cv);
    }
    while idx < catalog.len()
        invariant
            cv == catalog_view(catalog@),
            idx <= catalog@.len(),
            spec_catalog_find(cv, key@) == spec_catalog_find(cv.skip(idx as int), key@),
        decreases catalog@.len() - idx,
    {
        proof {
            assert(cv.skip(idx as int)[0] == cv[idx as int]);
            assert(cv.skip(idx as int).drop_first() =~= cv.skip(idx as int + 1));
        }
        let entry = &catalog[idx];
        if str_eq(entry.0.as_str(), key) {
            return Some(&entry.1);
        }
        idx = idx + 1;
    }
    proof {
        assert(cv.skip(idx as int) =~= Seq::<(Seq<char>, Seq<char>, DecodeConfig)>::empty());
    }
    None
}

/// The manufacturer lane of a query plan: each requested key present in the
/// catalog, with its first matching entry, in request order.
pub open spec fn spec_bmw_plan(
    keys: Seq<Seq<char>>,
    cat: Seq<(Seq<char>, Seq<char>, DecodeConfig)>,
) -> Seq<(Seq<char>, Seq<char>, DecodeConfig)>
    decreases keys.len(),
{
    if keys.len() == 0 {
        seq![]
    } else {
        let rest = spec_bmw_plan(keys.drop_first(), cat);
        match spec_catalog_find(cat, keys[0]) {
            Some(c) => seq![(keys[0], c.0, c.1)] + rest,
            None => rest,
        }
    }
}

/// Builds the manufacturer lane of the query plan from the requested keys
/// and the channel catalog.
pub fn build_bmw_pairs(
    selected: &Vec<String>,
    catalog: &Vec<(String, BmwChannelConfig)>,
) -> (r: Vec<(String, BmwChannelConfig)>)
    ensures
        r@.map_values(|e: (String, BmwChannelConfig)| (e.0@, e.1.command@, e.1.decode))
            == spec_bmw_plan(
            selected@.map_values(|k: String| k@),
            catalog_view(catalog@),
        ),
{
    let ghost kv = selected@.map_values(|k: String| k@);
    let ghost cv = catalog_view(catalog@);
    let mut out: Vec<(String, BmwChannelConfig)> = Vec::new();
    let mut idx: usize = 0;
    proof {
        assert(kv.skip(0) =~= kv);
        assert(out@.map_values(|e: (String, BmwChannelConfig)| (e.0@, e.1.command@, e.1.decode))
            + spec_bmw_plan(kv, cv) =~= spec_bmw_plan(kv, cv));
    }
    while idx < selected.len()
        invariant
            kv == selected@.map_values(|k: String| k@),
            cv == catalog_view(catalog@),
            idx <= selected@.len(),
            out@.map_values(|e: (String, BmwChannelConfig)| (e.0@, e.1.command@, e.1.decode))
                + spec_bmw_plan(kv.skip(idx as int), cv) == spec_bmw_plan(kv, cv),
        decreases selected@.len() - idx,
    {
        let key = &selected[idx];
        proof {
            assert(kv.skip(idx as int)[0] == kv[idx as int]);
            assert(kv.skip(idx as int).drop_first() =~= kv.skip(idx as int + 1));
        }
        match catalog_find(catalog, key.as_str()) {
            Some(config) => {
                let ghost before = out@;
                let copy = config.duplicate();
                out.push((key.clone(), copy));
                proof {
                    assert(out@.map_values(
                        |e: (String, BmwChannelConfig)| (e.0@, e.1.command@, e.1.decode),
                    ) =~= before.map_values(
                        |e: (String, BmwChannelConfig)| (e.0@, e.1.command@, e.1.decode),
                    ) + seq![(kv[idx as int], copy.command@, copy.decode)]);
                    assert(before.map_values(
                        |e: (String, BmwChannelConfig)| (e.0@, e.1.command@, e.1.decode),
                    ) + (seq![(kv[idx as int], copy.command@, copy.decode)] + spec_bmw_plan(
                        kv.skip(idx as int + 1),
                        cv,
                    )) =~= out@.map_values(
                        |e: (String, BmwChannelConfig)| (e.0@, e.1.command@, e.1.decode),
                    ) + spec_bmw_plan(kv.skip(idx as int + 1), cv));
                }
            },
            None => {},
        }
        idx = idx + 1;
    }
    proof {
        assert(kv.skip(idx as int) =~= Seq::<Seq<char>>::empty());
        assert(out@.map_values(|e: (String, BmwChannelConfig)| (e.0@, e.1.command@, e.1.decode))
            =~= spec_bmw_plan(kv, cv));
    }
    out
}

/// Relies on `std::time::SystemTime::now` read against `UNIX_EPOCH`: the
/// wall clock as milliseconds since the epoch, 0 when the clock reads
/// before the epoch. Nothing is promised of the value: the clock may move
/// arbitrarily between calls.
#[verifier::external_body]
pub fn now_timestamp_ms() -> u128 {
    match std::time::SystemTime::now().duration_since(std::time::UNIX_EPOCH) {
        Ok(duration) => duration.as_millis(),
        Err(_) => 0,
    }
}

} // verus!
