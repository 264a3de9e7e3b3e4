//! The scripting host: owns one Lua environment, loads the deployment's
//! routing module at startup and exposes the synchronous `decide`
//! operation over it.
//!
//! Everything the host decides — how the module search path is built, how
//! a header mapping or a body reaches the script, how the script's return
//! value becomes a routing decision, how a diagnostic line is rendered —
//! is verified code in this crate; the Lua engine itself is reached only
//! through the trusted wrappers below, each of which makes one call into
//! the `mlua` crate.
//!
//! `decide` takes the host exclusively (`&mut`): invocations are not
//! reentrant, and callers running concurrently must serialize them behind
//! a lock held for the whole call.
use vstd::prelude::*;

use crate::admission::{decision_of, RoutingDecision};
use crate::diag::{render_line, DiagValue};
use crate::record::LuaRequest;
use crate::textenc::{body_text, clone_bytes};
use mlua::Value;

verus! {

#[verifier::external_type_specification]
#[verifier::external_body]
pub struct ExLua(mlua::Lua);

#[verifier::external_type_specification]
#[verifier::external_body]
pub struct ExLuaTable(mlua::Table);

#[verifier::external_type_specification]
#[verifier::external_body]
pub struct ExLuaFunction(mlua::Function);

#[verifier::external_type_specification]
#[verifier::external_body]
pub struct ExLuaValue(mlua::Value);

#[verifier::external_type_specification]
#[verifier::external_body]
pub struct ExLuaError(mlua::Error);

#[verifier::external_type_specification]
#[verifier::external_body]
#[verifier::reject_recursive_types(T)]
pub struct ExSender<T>(std::sync::mpsc::Sender<T>);

/// A startup failure of the scripting host; each carries the engine's
/// rendered detail. All are fatal: no traffic is served after one.
#[derive(Debug)]
pub enum ScriptLoadError {
    /// The engine could not be prepared (search path, config, shim).
    Engine(String),
    /// The routing module failed to load.
    Module(String),
    /// The module exposes no usable `queue_names` collection.
    QueueNames(String),
    /// The module exposes no usable `handler` callable.
    Handler(String),
}

/// Relies on `mlua::Lua::new`: a fresh Lua environment.
#[verifier::external_body]
fn lua_new() -> mlua::Lua {
    mlua::Lua::new()
}

/// Relies on `mlua::Lua::load` and `mlua::Chunk::eval`: evaluates a chunk
/// of Lua source to a function.
#[verifier::external_body]
fn eval_function(lua: &mlua::Lua, code: &str) -> Result<mlua::Function, mlua::Error> {
    lua.load(code).eval()
}

/// Relies on `mlua::Lua::load` and `mlua::Chunk::eval`: evaluates a chunk
/// of Lua source to a table.
#[verifier::external_body]
fn eval_table(lua: &mlua::Lua, code: &str) -> Result<mlua::Table, mlua::Error> {
    lua.load(code).eval()
}

/// Relies on `mlua::Function::call`: calls a Lua function with one string
/// argument and no result.
#[verifier::external_body]
fn call_with_string(f: &mlua::Function, arg: &str) -> Result<(), mlua::Error> {
    f.call::<()>(arg)
}

/// Relies on `mlua::Lua::create_table`: a fresh empty table.
#[verifier::external_body]
fn create_table(lua: &mlua::Lua) -> Result<mlua::Table, mlua::Error> {
    lua.create_table()
}

/// Relies on `mlua::Table::set`: binds a string key to a string value.
#[verifier::external_body]
fn table_set_str(t: &mlua::Table, key: &str, value: &str) -> Result<(), mlua::Error> {
    t.set(key, value)
}

/// Relies on `mlua::Table::set`: binds a string key to a table.
#[verifier::external_body]
fn table_set_table(t: &mlua::Table, key: &str, value: &mlua::Table) -> Result<(), mlua::Error> {
    t.set(key, value)
}

/// Relies on `mlua::Lua::globals` and `mlua::Table::set`: binds a global
/// name to a table.
#[verifier::external_body]
fn set_global_table(lua: &mlua::Lua, name: &str, t: &mlua::Table) -> Result<(), mlua::Error> {
    lua.globals().set(name, t)
}

/// Relies on `mlua::Lua::globals` and `mlua::Table::set`: binds a global
/// name to a function.
#[verifier::external_body]
fn set_global_function(lua: &mlua::Lua, name: &str, f: &mlua::Function) -> Result<
    (),
    mlua::Error,
> {
    lua.globals().set(name, f)
}

/// Relies on `mlua::Table::get`: reads a table-valued field.
#[verifier::external_body]
fn table_get_table(t: &mlua::Table, key: &str) -> Result<mlua::Table, mlua::Error> {
    t.get(key)
}

/// Relies on `mlua::Table::get`: reads a function-valued field.
#[verifier::external_body]
fn table_get_function(t: &mlua::Table, key: &str) -> Result<mlua::Function, mlua::Error> {
    t.get(key)
}

/// Relies on `mlua::Table::len`: the table's sequence length.
#[verifier::external_body]
fn table_len(t: &mlua::Table) -> Result<i64, mlua::Error> {
    t.len()
}

/// Relies on `mlua::Table::get`: reads the string at a sequence index.
#[verifier::external_body]
fn table_get_string_at(t: &mlua::Table, idx: i64) -> Result<String, mlua::Error> {
    t.get(idx)
}

/// Relies on `mlua::Function::call`: invokes the routing handler with the
/// request view; a returned string accepts, a returned nil rejects, and
/// any fault (or a return of another type) is the error.
#[verifier::external_body]
fn call_handler(f: &mlua::Function, view: &mlua::Table) -> Result<Option<String>, mlua::Error> {
    f.call::<Option<String>>(view)
}

/// Relies on `mlua::Function::call`: builds the read-only request view by
/// calling the view-builder chunk with the field table and body getter.
#[verifier::external_body]
fn call_view_builder(
    b: &mlua::Function,
    fields: &mlua::Table,
    getbody: &mlua::Function,
) -> Result<mlua::Table, mlua::Error> {
    b.call::<mlua::Table>((fields, getbody))
}

/// Relies on `mlua::Lua::create_function`: the body getter handed to the
/// request view. It defers to the verified [`body_text`], so the script
/// sees the body as text exactly when the bytes are valid UTF-8 and an
/// access on any other body raises, which fails the handler call.
#[verifier::external_body]
fn make_body_getter(lua: &mlua::Lua, body: Vec<u8>) -> Result<mlua::Function, mlua::Error> {
    lua.create_function(move |_, ()| match body_text(&body) {
        Some(s) => Ok(s),
        None => Err(mlua::Error::RuntimeError("body is not utf8".to_string())),
    })
}

/// Relies on `mlua::Lua::create_function`: the output shim bound over the
/// script's `print`. The closure only hands the arguments to the verified
/// [`render_values`] and sends the rendered line to the host's log sink.
#[verifier::external_body]
fn make_print_shim(lua: &mlua::Lua, sink: std::sync::mpsc::Sender<String>) -> Result<
    mlua::Function,
    mlua::Error,
> {
    lua.create_function(move |_, args: mlua::MultiValue| {
        let vals: Vec<mlua::Value> = args.into_iter().collect();
        let _ = sink.send(render_values(&vals));
        Ok(())
    })
}

/// Relies on `mlua::Error`'s rendering: the fault as one line of text.
#[verifier::external_body]
fn lua_error_text(e: &mlua::Error) -> String {
    format!("{}", e)
}

/// Reduces one Lua value to the plain diagnostic data the shim renders:
/// each variant maps to its category, with a float rendered on the spot
/// and reference-like values reduced to their identity tokens. Relies on
/// `mlua::Value` and the rendering of its pointers, function info and
/// errors.
#[verifier::external_body]
fn diag_of(v: &Value) -> DiagValue {
    match v {
        Value::Nil => DiagValue::Nil,
        Value::Boolean(b) => DiagValue::Boolean(*b),
        Value::Integer(i) => DiagValue::Integer(*i),
        Value::Number(x) => DiagValue::Number(format!("{}", x)),
        Value::String(s) => DiagValue::Text(s.to_string_lossy()),
        Value::Table(t) => DiagValue::Table(format!("{:?}", t.to_pointer())),
        Value::Function(f) => DiagValue::Callable(format!("{:?}", f.info())),
        Value::LightUserData(_) => DiagValue::LightUserData,
        Value::Thread(_) => DiagValue::Thread,
        Value::UserData(_) => DiagValue::UserData,
        Value::Error(e) => DiagValue::Error(format!("{:?}", e)),
        _ => DiagValue::Opaque,
    }
}

/// Renders the values of one `print` call to the single line the shim
/// logs.
pub fn render_values(vals: &Vec<Value>) -> String {
    let mut ds: Vec<DiagValue> = Vec::new();
    let mut i: usize = 0;
    while i < vals.len()
        decreases vals@.len() - i,
    {
        ds.push(diag_of(&vals[i]));
        i = i + 1;
    }
    render_line(&ds)
}

/// The module search paths rooted in the sandbox directory, joined for the
/// engine: bytecode and source modules, flat or in package-style
/// directories, in that order of preference.
pub fn package_paths(sandbox: &str) -> (r: String)
    ensures
        r@ == sandbox@ + "/?.ljbc;"@ + sandbox@ + "/?.lua;"@ + sandbox@ + "/?/init.ljbc;"@
            + sandbox@ + "/?/init.lua"@,
{
    let mut r = String::from_str(sandbox);
    r.append("/?.ljbc;");
    r.append(sandbox);
    r.append("/?.lua;");
    r.append(sandbox);
    r.append("/?/init.ljbc;");
    r.append(sandbox);
    r.append("/?/init.lua");
    r
}

/// One scripting environment with the routing module loaded: the engine,
/// the module's handler, the chunk that builds per-request views, and the
/// queue manifest the module exported.
pub struct ScriptHost {
    lua: mlua::Lua,
    handler: mlua::Function,
    view_builder: mlua::Function,
    queue_names: Vec<String>,
}

impl ScriptHost {
    /// The queue manifest the routing module exported, in its order.
    pub closed spec fn manifest(self) -> Seq<String> {
        self.queue_names@
    }

    /// The queue names the routing module exported, in order; the
    /// publisher declares exactly these at startup.
    pub fn queue_names(&self) -> (r: &Vec<String>)
        ensures
            r@ == self.manifest(),
    {
        &self.queue_names
    }

    /// Prepares one scripting environment and loads the routing module:
    /// prepends the sandbox's module paths (bytecode and source, flat and
    /// package-style) to the engine's search path so sandbox modules win
    /// over the defaults while built-ins stay reachable, injects the
    /// configuration read-only under `CONFIG`, installs the output shim
    /// over `print` with `log_sink` as the logger, loads the module named
    /// `mod`, and takes its exported `queue_names` and `handler`. Every
    /// failure is fatal and reported as the load error of the step that
    /// failed.
    pub fn setup_engine(
        sandbox_path: &str,
        config: &Vec<(String, String)>,
        log_sink: std::sync::mpsc::Sender<String>,
    ) -> Result<ScriptHost, ScriptLoadError> {
        ScriptHost::setup_with_module(sandbox_path, config, log_sink, "require(\"mod\")")
    }

    /// As [`ScriptHost::setup_engine`], but with the routing module given
    /// as a chunk of Lua source instead of the fixed `require`; the chunk
    /// must evaluate to the module table.
    pub fn setup_with_module(
        sandbox_path: &str,
        config: &Vec<(String, String)>,
        log_sink: std::sync::mpsc::Sender<String>,
        module_chunk: &str,
    ) -> Result<ScriptHost, ScriptLoadError> {
        let lua = lua_new();

        let prepend = match eval_function(
            &lua,
            "function(p)\n  package.path = p .. \";\" .. package.path\nend",
        ) {
            Ok(f) => f,
            Err(e) => {
                return Err(ScriptLoadError::Engine(lua_error_text(&e)));
            },
        };
        let paths = package_paths(sandbox_path);
        if let Err(e) = call_with_string(&prepend, paths.as_str()) {
            return Err(ScriptLoadError::Engine(lua_error_text(&e)));
        }

        let config_table = match create_table(&lua) {
            Ok(t) => t,
            Err(e) => {
                return Err(ScriptLoadError::Engine(lua_error_text(&e)));
            },
        };
        let mut i: usize = 0;
        while i < config.len()
            decreases config@.len() - i,
        {
            if let Err(e) = table_set_str(
                &config_table,
                config[i].0.as_str(),
                config[i].1.as_str(),
            ) {
                return Err(ScriptLoadError::Engine(lua_error_text(&e)));
            }
            i = i + 1;
        }
        if let Err(e) = set_global_table(&lua, "CONFIG", &config_table) {
            return Err(ScriptLoadError::Engine(lua_error_text(&e)));
        }

        let shim = match make_print_shim(&lua, log_sink) {
            Ok(f) => f,
            Err(e) => {
                return Err(ScriptLoadError::Engine(lua_error_text(&e)));
            },
        };
        if let Err(e) = set_global_function(&lua, "print", &shim) {
            return Err(ScriptLoadError::Engine(lua_error_text(&e)));
        }

        let view_builder = match eval_function(
            &lua,
            "function(fields, getbody)\n  return setmetatable({}, {\n    __index = function(t, k)\n      if k == \"body\" then\n        return getbody()\n      end\n      return fields[k]\n    end,\n    __newindex = function()\n      error(\"request view is read-only\")\n    end\n  })\nend",
        ) {
            Ok(f) => f,
            Err(e) => {
                return Err(ScriptLoadError::Engine(lua_error_text(&e)));
            },
        };

        let module = match eval_table(&lua, module_chunk) {
            Ok(t) => t,
            Err(e) => {
                return Err(ScriptLoadError::Module(lua_error_text(&e)));
            },
        };
        let names_table = match table_get_table(&module, "queue_names") {
            Ok(t) => t,
            Err(e) => {
                return Err(ScriptLoadError::QueueNames(lua_error_text(&e)));
            },
        };
        let handler = match table_get_function(&module, "handler") {
            Ok(f) => f,
            Err(e) => {
                return Err(ScriptLoadError::Handler(lua_error_text(&e)));
            },
        };

        let n = match table_len(&names_table) {
            Ok(n) => n,
            Err(e) => {
                return Err(ScriptLoadError::QueueNames(lua_error_text(&e)));
            },
        };
        let mut queue_names: Vec<String> = Vec::new();
        let mut k: i64 = 0;
        while k < n
            invariant
                0 <= k,
            decreases n - k,
        {
            match table_get_string_at(&names_table, k + 1) {
                Ok(name) => queue_names.push(name),
                Err(e) => {
                    return Err(ScriptLoadError::QueueNames(lua_error_text(&e)));
                },
            }
            k = k + 1;
        }

        Ok(ScriptHost { lua, handler, view_builder, queue_names })
    }

    /// Runs the routing module's handler over one request record and maps
    /// its outcome through [`decision_of`]: a returned queue name accepts,
    /// a returned nil rejects, and any fault while the view was built or
    /// the handler ran — a body read on non-text bytes included — is an
    /// error. The record reaches the script as a read-only view with the
    /// record's id, url, method, origin, lower-cased headers, optional
    /// MIME string, and the body as lazily-read text. Takes the host
    /// exclusively: calls are never concurrent.
    pub fn decide(&mut self, record: &LuaRequest) -> RoutingDecision
        requires
            record.wf(),
    {
        let fields = match create_table(&self.lua) {
            Ok(t) => t,
            Err(e) => {
                return decision_of(Err(lua_error_text(&e)));
            },
        };
        if let Err(e) = table_set_str(&fields, "request_id", record.request_id.as_str()) {
            return decision_of(Err(lua_error_text(&e)));
        }
        if let Err(e) = table_set_str(&fields, "url", record.url.as_str()) {
            return decision_of(Err(lua_error_text(&e)));
        }
        if let Err(e) = table_set_str(&fields, "method", record.method.as_str()) {
            return decision_of(Err(lua_error_text(&e)));
        }
        if let Err(e) = table_set_str(&fields, "origin", record.origin.as_str()) {
            return decision_of(Err(lua_error_text(&e)));
        }
        if let Some(m) = &record.mime_type {
            if let Err(e) = table_set_str(&fields, "mimetype", m.as_str()) {
                return decision_of(Err(lua_error_text(&e)));
            }
        }

        let headers = match create_table(&self.lua) {
            Ok(t) => t,
            Err(e) => {
                return decision_of(Err(lua_error_text(&e)));
            },
        };
        let mut i: usize = 0;
        while i < record.headers.len()
            decreases record.headers@.len() - i,
        {
            if let Err(e) = table_set_str(
                &headers,
                record.headers[i].0.as_str(),
                record.headers[i].1.as_str(),
            ) {
                return decision_of(Err(lua_error_text(&e)));
            }
            i = i + 1;
        }
        if let Err(e) = table_set_table(&fields, "headers", &headers) {
            return decision_of(Err(lua_error_text(&e)));
        }

        let getbody = match make_body_getter(&self.lua, clone_bytes(&record.body)) {
            Ok(f) => f,
            Err(e) => {
                return decision_of(Err(lua_error_text(&e)));
            },
        };
        let view = match call_view_builder(&self.view_builder, &fields, &getbody) {
            Ok(t) => t,
            Err(e) => {
                return decision_of(Err(lua_error_text(&e)));
            },
        };

        match call_handler(&self.handler, &view) {
            Ok(outcome) => decision_of(Ok(outcome)),
            Err(e) => decision_of(Err(lua_error_text(&e))),
        }
    }
}

} // verus!
