//! The trusted boundary to the proving/execution runtime.
//!
//! Everything the library needs from the runtime — program parsing, record
//! decryption, deployment simulation, cost queries, authorization and
//! transaction construction — goes through the wrappers in this module. Each
//! wrapper makes one runtime call; its contract states only what the
//! runtime's own source shows. Runtime values travel through the library
//! inside the opaque carrier structs below, which hold them without looking
//! inside.

use vstd::prelude::*;

use std::str::FromStr;

use rand::rngs::StdRng;
use rand::SeedableRng;
use snarkvm::console::network::MainnetV0;
use snarkvm::ledger::query::QueryTrait;
use snarkvm::ledger::store::helpers::memory::{BlockMemory, ConsensusMemory};
use snarkvm::ledger::store::ConsensusStore;
use snarkvm::prelude::query::Query;
use snarkvm::prelude::{
    Authorization, Ciphertext, Deployment, Identifier, Plaintext, PrivateKey, ProgramID, Record,
    Value, ViewKey, VM,
};
use snarkvm::synthesizer::process::deployment_cost_v4;
use snarkvm::synthesizer::process::execution_cost_for_authorization;
use snarkvm::synthesizer::program::ProgramCore;
use snarkvm::synthesizer::Process;

verus! {

/// An execution context of the runtime, with the programs registered so far.
#[verifier::external_body]
pub struct NativeProcess {
    inner: Process<MainnetV0>,
}

/// A parsed program of the runtime.
#[verifier::external_body]
pub struct NativeProgram {
    inner: ProgramCore<MainnetV0>,
}

/// A simulated deployment produced by the runtime.
#[verifier::external_body]
pub struct NativeDeployment {
    inner: Deployment<MainnetV0>,
}

/// A parsed account private key.
#[verifier::external_body]
pub struct NativePrivateKey {
    inner: PrivateKey<MainnetV0>,
}

/// A view key derived from a private key.
#[verifier::external_body]
pub struct NativeViewKey {
    inner: ViewKey<MainnetV0>,
}

/// A parsed, still-encrypted record.
#[verifier::external_body]
pub struct NativeRecordCiphertext {
    inner: Record<MainnetV0, Ciphertext<MainnetV0>>,
}

/// A decrypted, spendable record.
#[verifier::external_body]
pub struct NativeRecord {
    inner: Record<MainnetV0, Plaintext<MainnetV0>>,
}

/// A typed input value of the runtime.
#[verifier::external_body]
pub struct NativeValue {
    inner: Value<MainnetV0>,
}

/// An invocation-local randomness source.
#[verifier::external_body]
pub struct NativeRng {
    inner: StdRng,
}

/// A virtual machine bound to an in-memory consensus store.
#[verifier::external_body]
pub struct NativeVm {
    inner: VM<MainnetV0, ConsensusMemory<MainnetV0>>,
}

/// A query handle resolving on-chain state at an endpoint.
#[verifier::external_body]
pub struct NativeQuery {
    inner: Query<MainnetV0, BlockMemory<MainnetV0>>,
}

/// A signed, capability-checked execution request.
#[verifier::external_body]
pub struct NativeAuthorization {
    inner: Authorization<MainnetV0>,
}

/// The program's header as the runtime's parser reports it: its identifier
/// and its declared imports, in declaration order, next to the parsed
/// program value itself.
pub struct ParsedProgram {
    /// The opaque parsed program, ready for registration or deployment.
    pub program: NativeProgram,
    /// The program's identifier, in `{name}.aleo` form.
    pub id: String,
    /// The identifiers of the program's declared imports.
    pub imports: Vec<String>,
}

/// The header that the runtime's program parser yields on a given source
/// text: `None` when the source is rejected, otherwise the program identifier
/// and the declared import identifiers in declaration order.
pub uninterp spec fn parsed_header(s: Seq<char>) -> Option<(Seq<char>, Seq<Seq<char>>)>;

/// Relies on `Program::from_str` of the runtime: parsing is a function of the
/// source text alone, and `id()` and `imports()` report the parsed header.
#[verifier::external_body]
pub fn parse_program(s: &str) -> (r: Result<ParsedProgram, String>)
    ensures
        r is Ok <==> parsed_header(s@) is Some,
        r matches Ok(p) ==> parsed_header(s@) matches Some(h) && p.id@ == h.0 && p.imports@.len()
            == h.1.len() && (forall|i: int|
            0 <= i < h.1.len() ==> #[trigger] p.imports@[i]@ == h.1[i]),
{
    match ProgramCore::<MainnetV0>::from_str(s) {
        Ok(program) => {
            let id = program.id().to_string();
            let imports = program.imports().keys().map(|k| k.to_string()).collect();
            Ok(ParsedProgram { program: NativeProgram { inner: program }, id, imports })
        },
        Err(e) => Err(e.to_string()),
    }
}

/// Relies on `Process::load`: a fresh execution context with the native
/// credits program registered.
#[verifier::external_body]
pub fn process_load() -> (r: Result<NativeProcess, String>) {
    match Process::<MainnetV0>::load() {
        Ok(inner) => Ok(NativeProcess { inner }),
        Err(e) => Err(e.to_string()),
    }
}

/// Relies on `Process::add_program` (through the process's exclusive guard):
/// registers a parsed program, failing if one of its imports is not yet
/// registered or the program is invalid.
#[verifier::external_body]
pub fn process_add_program(process: &NativeProcess, program: &NativeProgram) -> (r: Result<
    (),
    String,
>) {
    process.inner.lock().add_program(&program.inner).map_err(|e| e.to_string())
}

/// Relies on `StdRng::from_rng` over the thread generator: a freshly seeded,
/// invocation-local randomness source. Nothing is promised of the values it
/// yields.
#[verifier::external_body]
pub fn fresh_rng() -> (r: NativeRng) {
    NativeRng { inner: StdRng::from_rng(&mut rand::rng()) }
}

/// Relies on `Process::deploy`: simulates a deployment of the program within
/// the context, without committing anything. The result depends on the
/// randomness source, so nothing is promised of it.
#[verifier::external_body]
pub fn process_deploy(process: &NativeProcess, program: &NativeProgram, rng: &mut NativeRng) -> (r:
    Result<NativeDeployment, String>) {
    match process.inner.deploy::<snarkvm::circuit::AleoV0, _>(&program.inner, &mut rng.inner) {
        Ok(inner) => Ok(NativeDeployment { inner }),
        Err(e) => Err(e.to_string()),
    }
}

/// Relies on `deployment_cost_v4`: on success the minimum cost is exactly the
/// sum of the storage, synthesis, constructor and namespace components, as
/// the runtime's source computes it with checked addition.
#[verifier::external_body]
pub fn deploy_cost(process: &NativeProcess, deployment: &NativeDeployment) -> (r: Result<
    (u64, u64, u64, u64, u64),
    String,
>)
    ensures
        r matches Ok(c) ==> c.0 == c.1 + c.2 + c.3 + c.4,
{
    match deployment_cost_v4(&process.inner, &deployment.inner) {
        Ok((minimum, (storage, synthesis, constructor, namespace))) => {
            Ok((minimum, storage, synthesis, constructor, namespace))
        },
        Err(e) => Err(e.to_string()),
    }
}

/// Whether the runtime's private-key parser accepts the string: a function
/// of the text alone.
pub uninterp spec fn key_parses(s: Seq<char>) -> bool;

/// Relies on `PrivateKey::from_str`: parsing is a function of the string
/// alone, and succeeds exactly on well-formed private-key strings.
#[verifier::external_body]
pub fn private_key_from_str(s: &str) -> (r: Result<NativePrivateKey, String>)
    ensures
        r is Ok <==> key_parses(s@),
{
    match PrivateKey::<MainnetV0>::from_str(s) {
        Ok(inner) => Ok(NativePrivateKey { inner }),
        Err(e) => Err(e.to_string()),
    }
}

/// Whether the runtime's record parser accepts the string as a serialized
/// record ciphertext: a function of the text alone.
pub uninterp spec fn record_parses(s: Seq<char>) -> bool;

/// Relies on `Record::from_str` on ciphertext records: parsing is a function
/// of the string alone, and succeeds exactly on well-formed serialized
/// records.
#[verifier::external_body]
pub fn record_ciphertext_from_str(s: &str) -> (r: Result<NativeRecordCiphertext, String>)
    ensures
        r is Ok <==> record_parses(s@),
{
    match Record::<MainnetV0, Ciphertext<MainnetV0>>::from_str(s) {
        Ok(inner) => Ok(NativeRecordCiphertext { inner }),
        Err(e) => Err(e.to_string()),
    }
}

/// Relies on `ViewKey::try_from`: derives the view key of a private key.
#[verifier::external_body]
pub fn view_key_for(private_key: &NativePrivateKey) -> (r: Result<NativeViewKey, String>) {
    match ViewKey::try_from(&private_key.inner) {
        Ok(inner) => Ok(NativeViewKey { inner }),
        Err(e) => Err(e.to_string()),
    }
}

/// Relies on `Record::decrypt`: opens a record ciphertext with a view key,
/// failing when the key does not own the record.
#[verifier::external_body]
pub fn decrypt_record(ciphertext: &NativeRecordCiphertext, view_key: &NativeViewKey) -> (r: Result<
    NativeRecord,
    String,
>) {
    match ciphertext.inner.decrypt(&view_key.inner) {
        Ok(inner) => Ok(NativeRecord { inner }),
        Err(e) => Err(e.to_string()),
    }
}

/// Whether the runtime's value parser accepts the string as a typed input
/// value: a function of the text alone.
pub uninterp spec fn value_parses(s: Seq<char>) -> bool;

/// Relies on `Value::from_str`: parsing is a function of the string alone,
/// and succeeds exactly on well-formed typed values.
#[verifier::external_body]
pub fn value_from_str(s: &str) -> (r: Result<NativeValue, String>)
    ensures
        r is Ok <==> value_parses(s@),
{
    match Value::<MainnetV0>::from_str(s) {
        Ok(inner) => Ok(NativeValue { inner }),
        Err(e) => Err(e.to_string()),
    }
}

/// Relies on the `Value::Record` constructor: wraps a plaintext record as an
/// input value.
#[verifier::external_body]
pub fn value_from_record(record: NativeRecord) -> (r: NativeValue) {
    NativeValue { inner: Value::Record(record.inner) }
}

/// Relies on `ConsensusStore::open` and `VM::from`: a virtual machine over a
/// fresh in-memory store, with the native credits program loaded. The store
/// is opened in development mode 0, which for the in-memory backend touches
/// no on-disk state.
#[verifier::external_body]
pub fn vm_open() -> (r: Result<NativeVm, String>) {
    let store = ConsensusStore::<MainnetV0, ConsensusMemory<MainnetV0>>::open(0u16).map_err(
        |e| e.to_string(),
    )?;
    match VM::from(store) {
        Ok(inner) => Ok(NativeVm { inner }),
        Err(e) => Err(e.to_string()),
    }
}

/// Relies on `Process::add_program` through `VM::process`: registers a parsed
/// program into the virtual machine's execution context.
#[verifier::external_body]
pub fn vm_add_program(vm: &NativeVm, program: &NativeProgram) -> (r: Result<(), String>) {
    vm.inner.process().lock().add_program(&program.inner).map_err(|e| e.to_string())
}

/// Relies on `Process::contains_program` through `VM::process`: whether the
/// identifier is already registered in the virtual machine's context. The
/// result depends on the machine's state, so nothing more is promised.
#[verifier::external_body]
pub fn vm_contains_program(vm: &NativeVm, program_id: &str) -> (r: bool) {
    match ProgramID::<MainnetV0>::from_str(program_id) {
        Ok(id) => vm.inner.process().contains_program(&id),
        Err(_) => false,
    }
}

/// Relies on `Query::try_from`: builds a query handle for an endpoint string.
#[verifier::external_body]
pub fn query_from(endpoint: &str) -> (r: Result<NativeQuery, String>) {
    match Query::<MainnetV0, BlockMemory<MainnetV0>>::try_from(endpoint) {
        Ok(inner) => Ok(NativeQuery { inner }),
        Err(e) => Err(e.to_string()),
    }
}

/// Relies on `Query::get_program`: fetches a program's source text from the
/// query endpoint. The result depends on remote state, so nothing is promised
/// of it.
#[verifier::external_body]
pub fn fetch_program_source(query: &NativeQuery, program_id: &str) -> (r: Result<String, String>) {
    let id = ProgramID::<MainnetV0>::from_str(program_id).map_err(|e| e.to_string())?;
    match query.inner.get_program(&id) {
        Ok(program) => Ok(program.to_string()),
        Err(e) => Err(e.to_string()),
    }
}

/// Relies on `VM::execute`: authorizes, proves and assembles a transaction
/// for the call, paying the fee from the given record if any. The result
/// depends on randomness and remote state, so nothing is promised of it.
#[verifier::external_body]
pub fn vm_execute(
    vm: &NativeVm,
    private_key: &NativePrivateKey,
    program_id: &str,
    function_id: &str,
    inputs: Vec<NativeValue>,
    fee_record: Option<NativeRecord>,
    priority_fee: u64,
    query: &NativeQuery,
    rng: &mut NativeRng,
) -> (r: Result<String, String>) {
    let id = ProgramID::<MainnetV0>::from_str(program_id).map_err(|e| e.to_string())?;
    let function = Identifier::<MainnetV0>::from_str(function_id).map_err(|e| e.to_string())?;
    let result = vm.inner.execute(
        &private_key.inner,
        (id, function),
        inputs.into_iter().map(|v| v.inner),
        fee_record.map(|record| record.inner),
        priority_fee,
        Some(&query.inner as &dyn QueryTrait<MainnetV0>),
        &mut rng.inner,
    );
    match result {
        Ok(transaction) => Ok(transaction.to_string()),
        Err(e) => Err(e.to_string()),
    }
}

/// Relies on `VM::authorize`: signs a capability-checked request to execute
/// the function with the given inputs.
#[verifier::external_body]
pub fn vm_authorize(
    vm: &NativeVm,
    private_key: &NativePrivateKey,
    program_id: &str,
    function_id: &str,
    inputs: Vec<NativeValue>,
    rng: &mut NativeRng,
) -> (r: Result<NativeAuthorization, String>) {
    let id = ProgramID::<MainnetV0>::from_str(program_id).map_err(|e| e.to_string())?;
    let function = Identifier::<MainnetV0>::from_str(function_id).map_err(|e| e.to_string())?;
    let result = vm.inner.authorize(
        &private_key.inner,
        id,
        function,
        inputs.into_iter().map(|v| v.inner),
        &mut rng.inner,
    );
    match result {
        Ok(inner) => Ok(NativeAuthorization { inner }),
        Err(e) => Err(e.to_string()),
    }
}

/// Relies on `execution_cost_for_authorization`, evaluated at the newest
/// consensus version the runtime defines: on success the minimum cost is
/// exactly the sum of the storage and finalize components, as the runtime's
/// source computes it with checked addition.
#[verifier::external_body]
pub fn authorization_execution_cost(vm: &NativeVm, authorization: &NativeAuthorization) -> (r:
    Result<(u64, u64, u64), String>)
    ensures
        r matches Ok(c) ==> c.0 == c.1 + c.2,
{
    let version = snarkvm::console::network::ConsensusVersion::V21;
    let process = vm.inner.process();
    match execution_cost_for_authorization(process.as_ref(), &authorization.inner, version) {
        Ok((minimum, (storage, finalize))) => Ok((minimum, storage, finalize)),
        Err(e) => Err(e.to_string()),
    }
}

} // verus!
