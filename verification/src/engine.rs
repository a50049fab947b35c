//! The scripting engine boundary: every call into `mlua` the pipeline makes.
//!
//! A handler script runs in a fresh engine per request, so nothing a script
//! does can leak into another request. What a script computes is its own
//! business; nothing is assumed about the values these calls hand back, and
//! the pipeline is verified to handle every outcome.

use vstd::prelude::*;

verus! {

#[verifier::external_type_specification]
#[verifier::external_body]
pub struct ExLua(mlua::Lua);

#[verifier::external_type_specification]
#[verifier::external_body]
pub struct ExTable(mlua::Table);

#[verifier::external_type_specification]
#[verifier::external_body]
pub struct ExFunction(mlua::Function);

/// Relies on `mlua::Lua::new`: a fresh, isolated interpreter.
#[verifier::external_body]
pub(crate) fn new_lua() -> mlua::Lua {
    mlua::Lua::new()
}

/// Relies on `mlua::Lua::create_table`: a fresh, empty table.
#[verifier::external_body]
pub(crate) fn create_table(lua: &mlua::Lua) -> Result<mlua::Table, String> {
    lua.create_table().map_err(|e| e.to_string())
}

/// Relies on `mlua::Table::set`: stores a string under a string key.
#[verifier::external_body]
pub(crate) fn table_set_str(t: &mlua::Table, key: &str, value: &str) -> Result<(), String> {
    t.set(key, value).map_err(|e| e.to_string())
}

/// Relies on `mlua::Table::set`: stores an integer under a string key.
#[verifier::external_body]
pub(crate) fn table_set_i32(t: &mlua::Table, key: &str, value: i32) -> Result<(), String> {
    t.set(key, value).map_err(|e| e.to_string())
}

/// Relies on `mlua::Table::set`: stores a table under a string key.
#[verifier::external_body]
pub(crate) fn table_set_table(t: &mlua::Table, key: &str, value: &mlua::Table) -> Result<
    (),
    String,
> {
    t.set(key, value.clone()).map_err(|e| e.to_string())
}

/// Relies on `mlua::Lua::globals` and `mlua::Table::set`: makes a table
/// visible to scripts under a global name.
#[verifier::external_body]
pub(crate) fn set_global_table(lua: &mlua::Lua, name: &str, t: &mlua::Table) -> Result<
    (),
    String,
> {
    lua.globals().set(name, t.clone()).map_err(|e| e.to_string())
}

/// Relies on `mlua::Lua::load` and `mlua::Chunk::eval`: evaluates the script
/// as one expression, expected to yield the handler module table.
#[verifier::external_body]
pub(crate) fn eval_module(lua: &mlua::Lua, code: &str, name: &str) -> Result<mlua::Table, String> {
    lua.load(code).set_name(name).eval::<mlua::Table>().map_err(|e| e.to_string())
}

/// Relies on `mlua::Table::get`: the member under this key, when it is a
/// function.
#[verifier::external_body]
pub(crate) fn get_function(t: &mlua::Table, key: &str) -> Option<mlua::Function> {
    t.get::<mlua::Function>(key).ok()
}

/// Relies on `mlua::Function::call`: runs one pipeline stage on the request
/// and response tables.
#[verifier::external_body]
pub(crate) fn call_stage(f: &mlua::Function, request: &mlua::Table, response: &mlua::Table)
    -> Result<(), String> {
    f.call::<()>((request.clone(), response.clone())).map_err(|e| e.to_string())
}

/// Relies on `mlua::Table::get`: the integer under this key, when it is one.
#[verifier::external_body]
pub(crate) fn get_i32_field(t: &mlua::Table, key: &str) -> Option<i32> {
    t.get::<i32>(key).ok()
}

/// Relies on `mlua::Table::get`: the string under this key, or the engine's
/// error text.
#[verifier::external_body]
pub(crate) fn get_string_field(t: &mlua::Table, key: &str) -> Result<String, String> {
    t.get::<String>(key).map_err(|e| e.to_string())
}

/// Relies on `mlua::Table::get`: the table under this key, or the engine's
/// error text.
#[verifier::external_body]
pub(crate) fn get_table_field(t: &mlua::Table, key: &str) -> Result<mlua::Table, String> {
    t.get::<mlua::Table>(key).map_err(|e| e.to_string())
}

/// Relies on `mlua::Table::pairs`: every string-to-string entry of the
/// table, in the engine's iteration order.
#[verifier::external_body]
pub(crate) fn get_string_pairs(t: &mlua::Table) -> Result<Vec<(String, String)>, String> {
    t.pairs::<String, String>().collect::<Result<Vec<_>, _>>().map_err(|e| e.to_string())
}

} // verus!
