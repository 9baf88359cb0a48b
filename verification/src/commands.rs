//! The command layer: cost queries and transaction construction.
//!
//! Each command validates its identifiers, applies the fee policy before any
//! network or proving work, resolves imports where needed, and hands a fully
//! validated request to the runtime boundary.

use vstd::prelude::*;

use crate::costfmt::{spec_cost_json, dec_string, CostBreakdown};
use crate::fee::{decide, is_fee_exempt, spec_fee_exempt, FeeDecision};
use crate::ident::{is_ident_char, is_name_char, is_reserved_type_name, valid_identifier, valid_program_id, FunctionName, ProgramId};
use crate::resolver::{entries_ordered, resolve, Context, ImportError, ImportMap, ProgramMeta};
use crate::runtime::{
    authorization_execution_cost, deploy_cost, fetch_program_source, fresh_rng, key_parses,
    parse_program, parsed_header, process_add_program, process_deploy, process_load, query_from,
    record_ciphertext_from_str, record_parses, decrypt_record, private_key_from_str,
    value_from_record, value_from_str, value_parses, view_key_for, vm_add_program, vm_authorize,
    vm_contains_program, vm_execute, vm_open, NativePrivateKey, NativeRecord, NativeValue,
    NativeVm, NativeQuery,
};

verus! {

/// Why record parsing failed.
#[derive(Debug)]
pub enum RecordError {
    /// The string is not a well-formed serialized record.
    MalformedRecord,
    /// The private key does not own the record's ciphertext.
    DecryptionFailed,
}

/// Why a command failed.
#[derive(Debug)]
pub enum TxError {
    /// A program, identifier or value string is malformed.
    Parse(String),
    /// Import resolution failed.
    Import(ImportError),
    /// The fee record could not be used.
    Record(RecordError),
    /// No fee record was supplied and the target is not fee-exempt.
    FeePolicyRejected,
    /// The runtime could not simulate the operation to derive its cost.
    EstimationFailed(String),
    /// The query endpoint could not be used or reached.
    Network(String),
    /// The runtime failed to construct the transaction.
    Build(String),
}

/// The endpoint used when the caller supplies none.
pub fn default_endpoint() -> (r: String)
    ensures
        r@ == "https://vm.aleo.org/api"@,
{
    String::from_str("https://vm.aleo.org/api")
}

/// The caller's endpoint, or the well-known public one.
pub fn resolve_endpoint(query: Option<&str>) -> (r: String)
    ensures
        r@ == match query {
            Some(q) => q@,
            None => "https://vm.aleo.org/api"@,
        },
{
    match query {
        Some(q) => String::from_str(q),
        None => default_endpoint(),
    }
}

/// Parses and decrypts a serialized record against the private key: a string
/// that is not a well-formed record is `MalformedRecord`, exactly; one that
/// is well-formed but whose ciphertext the key cannot open is
/// `DecryptionFailed`.
pub fn parse_record(private_key: &NativePrivateKey, record: &str) -> (r: Result<
    NativeRecord,
    RecordError,
>)
    ensures
        r == Err::<NativeRecord, RecordError>(RecordError::MalformedRecord) <==> !record_parses(
            record@,
        ),
{
    let ciphertext = match record_ciphertext_from_str(record) {
        Ok(ciphertext) => ciphertext,
        Err(_) => {
            return Err(RecordError::MalformedRecord);
        },
    };
    let view_key = match view_key_for(private_key) {
        Ok(view_key) => view_key,
        Err(_) => {
            return Err(RecordError::DecryptionFailed);
        },
    };
    match decrypt_record(&ciphertext, &view_key) {
        Ok(record) => Ok(record),
        Err(_) => Err(RecordError::DecryptionFailed),
    }
}

/// Estimates the cost of deploying the program, with its imports supplied in
/// the map.
///
/// The program is parsed, its imports are resolved dependency-first (failing
/// on a missing, malformed or cyclic import), the deployment is simulated
/// with fresh randomness, and the runtime's cost decomposition is reported as
/// JSON. On success the reported minimum cost is exactly the sum of the
/// storage component and the reported remainder, so it is at least each of
/// them.
pub fn deployment_cost(program: &str, imports: Option<ImportMap>) -> (r: Result<String, TxError>)
    requires
        imports matches Some(m) ==> m.wf(),
    ensures
        parsed_header(program@) is None ==> (r matches Err(e) && e is Parse),
        r matches Ok(js) ==> exists|m: int, st: int, fz: int|
            0 <= st && 0 <= fz && m == st + fz && js@ == spec_cost_json(m, st, fz),
        r matches Err(TxError::Import(ImportError::MissingImport(m))) ==> (imports matches Some(
            mp,
        ) ==> !mp.has_key(m@)),
        parsed_header(program@) matches Some(h) ==> (imports matches Some(mp) ==> (
        valid_program_id(h.0) && (forall|i: int|
            0 <= i < h.1.len() ==> valid_program_id(#[trigger] h.1[i])) && entries_ordered(
            &mp,
            Seq::<Seq<char>>::empty(),
        ) && (forall|i: int| 0 <= i < h.1.len() ==> mp.has_key(#[trigger] h.1[i])) ==> (r is Ok
            || (r matches Err(e) && e is EstimationFailed)))),
{
    let parsed = match parse_program(program) {
        Ok(parsed) => parsed,
        Err(e) => {
            return Err(TxError::Parse(e));
        },
    };
    let ghost gimports = imports;
    let map = match imports {
        Some(map) => map,
        None => ImportMap::new(),
    };
    let pid = match ProgramId::parse(parsed.id.as_str()) {
        Some(pid) => pid,
        None => {
            return Err(TxError::Parse(parsed.id));
        },
    };
    let mut import_ids: Vec<ProgramId> = Vec::new();
    let mut i: usize = 0;
    let n = parsed.imports.len();
    while i < n
        invariant
            0 <= i <= n,
            n == parsed.imports@.len(),
            parsed_header(program@) is Some,
            parsed.id@ == parsed_header(program@).unwrap().0,
            parsed_header(program@).unwrap().1.len() == parsed.imports@.len(),
            forall|j: int|
                0 <= j < n ==> #[trigger] parsed.imports@[j]@ == parsed_header(
                    program@,
                ).unwrap().1[j],
            import_ids@.len() == i,
            forall|j: int| 0 <= j < i ==> #[trigger] import_ids@[j]@ == parsed.imports@[j]@,
        decreases n - i,
    {
        match ProgramId::parse(parsed.imports[i].as_str()) {
            Some(imp) => {
                import_ids.push(imp);
            },
            None => {
                return Err(TxError::Parse(parsed.imports[i].clone()));
            },
        }
        i += 1;
    }
    let meta = ProgramMeta { id: pid, imports: import_ids };
    let mut ctx = Context::new();
    let plan = match resolve(&mut ctx, &meta, &map) {
        Ok(plan) => plan,
        Err(e) => {
            proof {
                if let Some(h) = parsed_header(program@) {
                    if let Some(mp) = gimports {
                        if valid_program_id(h.0) && (forall|ii: int|
                            0 <= ii < h.1.len() ==> valid_program_id(#[trigger] h.1[ii]))
                            && entries_ordered(&mp, Seq::<Seq<char>>::empty()) && (forall|ii: int|
                            0 <= ii < h.1.len() ==> mp.has_key(#[trigger] h.1[ii])) {
                            assert(map == mp);
                            assert(forall|ii: int|
                                0 <= ii < meta.imports@.len() ==> #[trigger] meta.imports@[ii]@
                                    == h.1[ii]);
                            assert(forall|ii: int|
                                0 <= ii < meta.imports@.len() ==> map.has_key(
                                    #[trigger] meta.imports@[ii]@,
                                ));
                            assert(false);
                        }
                    }
                }
            }
            return Err(TxError::Import(e));
        },
    };
    let process = match process_load() {
        Ok(process) => process,
        Err(e) => {
            return Err(TxError::EstimationFailed(e));
        },
    };
    let mut j: usize = 0;
    let n_plan = plan.len();
    while j < n_plan
        invariant
            0 <= j <= n_plan,
            n_plan == plan@.len(),
            parsed_header(program@) is Some,
        decreases n_plan - j,
    {
        let step_program = match parse_program(plan[j].source.as_str()) {
            Ok(step_program) => step_program,
            Err(e) => {
                return Err(TxError::EstimationFailed(e));
            },
        };
        match process_add_program(&process, &step_program.program) {
            Ok(()) => {},
            Err(e) => {
                return Err(TxError::EstimationFailed(e));
            },
        }
        j += 1;
    }
    let mut rng = fresh_rng();
    let deployment = match process_deploy(&process, &parsed.program, &mut rng) {
        Ok(deployment) => deployment,
        Err(e) => {
            return Err(TxError::EstimationFailed(e));
        },
    };
    let (minimum, storage, _synthesis, _constructor, _namespace) =
        match deploy_cost(&process, &deployment) {
        Ok(c) => c,
        Err(e) => {
            return Err(TxError::EstimationFailed(e));
        },
    };
    let breakdown = CostBreakdown { minimum, storage, finalize: minimum - storage };
    Ok(breakdown.to_json())
}

/// Estimates the cost of executing the function with the given inputs, by
/// loading the program from the query endpoint when it is not yet registered,
/// authorizing the call, and pricing the resulting request. Under the
/// runtime's current costing interface the price is derived from the
/// authorization alone; the endpoint serves the program load.
///
/// Malformed identifiers, a malformed private key and malformed input values
/// are rejected as `Parse` errors before any runtime work; after that, every
/// failure is an `EstimationFailed`, never a silent zero cost. On success the
/// reported minimum cost is exactly the sum of the storage and finalize
/// components.
pub fn execution_cost(
    private_key: &str,
    program_id: &str,
    function: &str,
    inputs: Vec<String>,
    query: Option<&str>,
) -> (r: Result<String, TxError>)
    ensures
        !valid_program_id(program_id@) || !valid_identifier(function@) ==> (r matches Err(e)
            && e is Parse),
        valid_program_id(program_id@) && valid_identifier(function@) && !key_parses(
            private_key@,
        ) ==> (r matches Err(e) && e is Parse),
        valid_program_id(program_id@) && valid_identifier(function@) && key_parses(private_key@)
            && (forall|i: int| 0 <= i < inputs@.len() ==> value_parses(#[trigger] inputs@[i]@))
            ==> (r is Ok || (r matches Err(e) && e is EstimationFailed)),
        r matches Ok(js) ==> exists|m: int, st: int, fz: int|
            0 <= st && 0 <= fz && m == st + fz && js@ == spec_cost_json(m, st, fz),
{
    let pid = match ProgramId::parse(program_id) {
        Some(pid) => pid,
        None => {
            return Err(TxError::Parse(String::from_str(program_id)));
        },
    };
    let fname = match FunctionName::parse(function) {
        Some(fname) => fname,
        None => {
            return Err(TxError::Parse(String::from_str(function)));
        },
    };
    let key = match private_key_from_str(private_key) {
        Ok(key) => key,
        Err(e) => {
            return Err(TxError::Parse(e));
        },
    };
    let mut values: Vec<NativeValue> = Vec::new();
    let mut i: usize = 0;
    let n = inputs.len();
    while i < n
        invariant
            0 <= i <= n,
            n == inputs@.len(),
            valid_program_id(program_id@) && valid_identifier(function@),
            key_parses(private_key@),
            forall|j: int| 0 <= j < i ==> value_parses(#[trigger] inputs@[j]@),
        decreases n - i,
    {
        match value_from_str(inputs[i].as_str()) {
            Ok(v) => {
                values.push(v);
            },
            Err(_) => {
                return Err(TxError::Parse(inputs[i].clone()));
            },
        }
        i += 1;
    }
    let endpoint = resolve_endpoint(query);
    let nquery = match query_from(endpoint.as_str()) {
        Ok(nquery) => nquery,
        Err(e) => {
            return Err(TxError::EstimationFailed(e));
        },
    };
    let vm = match vm_open() {
        Ok(vm) => vm,
        Err(e) => {
            return Err(TxError::EstimationFailed(e));
        },
    };
    if !vm_contains_program(&vm, pid.as_str()) {
        match load_program(&vm, &nquery, &pid) {
            Ok(()) => {},
            Err(e) => {
                return Err(TxError::EstimationFailed(estimation_cause(e)));
            },
        }
    }
    let mut rng = fresh_rng();
    let authorization = match vm_authorize(
        &vm,
        &key,
        pid.as_str(),
        fname.as_str(),
        values,
        &mut rng,
    ) {
        Ok(authorization) => authorization,
        Err(e) => {
            return Err(TxError::EstimationFailed(e));
        },
    };
    let (minimum, storage, finalize) = match authorization_execution_cost(&vm, &authorization) {
        Ok(c) => c,
        Err(e) => {
            return Err(TxError::EstimationFailed(e));
        },
    };
    let breakdown = CostBreakdown { minimum, storage, finalize };
    Ok(breakdown.to_json())
}

/// The cause text of a failure, for surfacing an underlying load failure as
/// an estimation failure.
fn estimation_cause(e: TxError) -> (r: String) {
    match e {
        TxError::Parse(cause) => cause,
        TxError::EstimationFailed(cause) => cause,
        TxError::Network(cause) => cause,
        TxError::Build(cause) => cause,
        TxError::Import(_) => String::from_str("an import of the program could not be resolved"),
        TxError::Record(_) => String::from_str("the fee record could not be used"),
        TxError::FeePolicyRejected => String::from_str(
            "a record must be provided to pay the transaction fee",
        ),
    }
}

/// The most fetch steps a program load may take. The runtime caps a program
/// at 64 declared imports, and this layer additionally caps the transitive
/// closure walked over the network at the same figure, squared: a remote
/// graph needing more is reported as a network-level failure rather than
/// walked indefinitely.
pub const MAX_FETCH_STEPS: usize = 4096;

/// Fetches the program and, transitively, its imports from the query
/// endpoint, and registers them into the virtual machine dependency-first.
/// The number of fetch steps is capped at `MAX_FETCH_STEPS`; an import graph
/// larger than that is reported as a network-level failure rather than
/// looped on.
pub fn load_program(vm: &NativeVm, query: &NativeQuery, id: &ProgramId) -> (r: Result<
    (),
    TxError,
>)
    ensures
        r matches Err(e) ==> !(e is FeePolicyRejected),
{
    let mut pending: Vec<ProgramId> = Vec::new();
    pending.push(id.clone_id());
    let mut map = ImportMap::new();
    let mut fuel: usize = MAX_FETCH_STEPS;
    while pending.len() > 0 && fuel > 0
        invariant
            map.wf(),
        decreases fuel,
    {
        fuel -= 1;
        let next = match pending.pop() {
            Some(next) => next,
            None => {
                break ;
            },
        };
        if map.contains_key(&next) {
            continue ;
        }
        let source = match fetch_program_source(query, next.as_str()) {
            Ok(source) => source,
            Err(e) => {
                return Err(TxError::Network(e));
            },
        };
        let parsed = match parse_program(source.as_str()) {
            Ok(parsed) => parsed,
            Err(e) => {
                return Err(TxError::Parse(e));
            },
        };
        let mut i: usize = 0;
        let n = parsed.imports.len();
        while i < n
            invariant
                0 <= i <= n,
                n == parsed.imports@.len(),
            decreases n - i,
        {
            match ProgramId::parse(parsed.imports[i].as_str()) {
                Some(imp) => {
                    pending.push(imp);
                },
                None => {
                    return Err(TxError::Parse(parsed.imports[i].clone()));
                },
            }
            i += 1;
        }
        map.insert(next, source);
    }
    if pending.len() > 0 {
        return Err(TxError::Network(String::from_str("too many imports to load")));
    }
    // Resolve the fetched programs into a dependency-first order and
    // register them.
    let top_source = match map.lookup(id) {
        Some(top_source) => top_source.clone(),
        None => {
            return Err(TxError::Network(String::from_str("program not fetched")));
        },
    };
    let top = match parse_program(top_source.as_str()) {
        Ok(top) => top,
        Err(e) => {
            return Err(TxError::Parse(e));
        },
    };
    let mut import_ids: Vec<ProgramId> = Vec::new();
    let mut i: usize = 0;
    let n = top.imports.len();
    while i < n
        invariant
            0 <= i <= n,
            n == top.imports@.len(),
        decreases n - i,
    {
        match ProgramId::parse(top.imports[i].as_str()) {
            Some(imp) => {
                import_ids.push(imp);
            },
            None => {
                return Err(TxError::Parse(top.imports[i].clone()));
            },
        }
        i += 1;
    }
    let meta = ProgramMeta { id: id.clone_id(), imports: import_ids };
    let mut ctx = Context::new();
    let plan = match resolve(&mut ctx, &meta, &map) {
        Ok(plan) => plan,
        Err(e) => {
            return Err(TxError::Import(e));
        },
    };
    let mut j: usize = 0;
    let n_plan = plan.len();
    while j < n_plan
        invariant
            0 <= j <= n_plan,
            n_plan == plan@.len(),
        decreases n_plan - j,
    {
        let step_program = match parse_program(plan[j].source.as_str()) {
            Ok(step_program) => step_program,
            Err(e) => {
                return Err(TxError::Parse(e));
            },
        };
        match vm_add_program(vm, &step_program.program) {
            Ok(()) => {},
            Err(e) => {
                return Err(TxError::Build(e));
            },
        }
        j += 1;
    }
    match vm_add_program(vm, &top.program) {
        Ok(()) => Ok(()),
        Err(e) => Err(TxError::Build(e)),
    }
}

/// Builds and signs an execution transaction for the function, paying the
/// fee from the supplied record.
///
/// The fee policy runs before any key handling, network or proving work:
/// with no fee record and a target other than `credits.aleo/split`, the
/// command fails with `FeePolicyRejected` and nothing else is attempted.
/// Malformed identifiers are rejected first.
pub fn execute(
    private_key: &str,
    program_id: &str,
    function: &str,
    inputs: Vec<String>,
    fee_record: Option<&str>,
    priority_fee_in_microcredits: Option<u64>,
    query: Option<&str>,
) -> (r: Result<String, TxError>)
    ensures
        !valid_program_id(program_id@) || !valid_identifier(function@) ==> (r matches Err(e)
            && e is Parse),
        valid_program_id(program_id@) && valid_identifier(function@) && fee_record is None
            && !spec_fee_exempt(program_id@, function@) ==> r == Err::<
            String,
            TxError,
        >(TxError::FeePolicyRejected),
        fee_record is Some ==> (r matches Err(e) ==> !(e is FeePolicyRejected)),
        valid_program_id(program_id@) && valid_identifier(function@) && fee_record is None
            && spec_fee_exempt(program_id@, function@) ==> (r matches Err(e) ==> !(
        e is FeePolicyRejected)),
        valid_program_id(program_id@) && valid_identifier(function@) && (fee_record is Some
            || spec_fee_exempt(program_id@, function@)) && !key_parses(private_key@) ==> (
        r matches Err(e) && e is Parse),
        valid_program_id(program_id@) && valid_identifier(function@) && key_parses(private_key@)
            && (fee_record matches Some(srec) && !record_parses(srec@)) ==> r == Err::<
            String,
            TxError,
        >(TxError::Record(RecordError::MalformedRecord)),
{
    let pid = match ProgramId::parse(program_id) {
        Some(pid) => pid,
        None => {
            return Err(TxError::Parse(String::from_str(program_id)));
        },
    };
    let fname = match FunctionName::parse(function) {
        Some(fname) => fname,
        None => {
            return Err(TxError::Parse(String::from_str(function)));
        },
    };
    // The fee policy gate: decided before any key, network or proving work.
    if fee_record.is_none() && !is_fee_exempt(&pid, &fname) {
        return Err(TxError::FeePolicyRejected);
    }
    let key = match private_key_from_str(private_key) {
        Ok(key) => key,
        Err(e) => {
            return Err(TxError::Parse(e));
        },
    };
    let record = match fee_record {
        Some(record_string) => {
            match parse_record(&key, record_string) {
                Ok(record) => Some(record),
                Err(e) => {
                    return Err(TxError::Record(e));
                },
            }
        },
        None => None,
    };
    let decision = decide(&pid, &fname, record, priority_fee_in_microcredits);
    let (fee, amount): (Option<NativeRecord>, u64) = match decision {
        FeeDecision::NoFeeRequired => (None, 0),
        FeeDecision::FeeFromRecord(record, amount) => (Some(record), amount),
        FeeDecision::Rejected => {
            return Err(TxError::FeePolicyRejected);
        },
    };
    let mut values: Vec<NativeValue> = Vec::new();
    let mut i: usize = 0;
    let n = inputs.len();
    while i < n
        invariant
            0 <= i <= n,
            n == inputs@.len(),
            fee_record is Some || spec_fee_exempt(program_id@, function@),
            valid_program_id(program_id@) && valid_identifier(function@),
            key_parses(private_key@),
            fee_record matches Some(srec) ==> record_parses(srec@),
        decreases n - i,
    {
        match value_from_str(inputs[i].as_str()) {
            Ok(v) => {
                values.push(v);
            },
            Err(_) => {
                return Err(TxError::Parse(inputs[i].clone()));
            },
        }
        i += 1;
    }
    let endpoint = resolve_endpoint(query);
    let nquery = match query_from(endpoint.as_str()) {
        Ok(nquery) => nquery,
        Err(e) => {
            return Err(TxError::Network(e));
        },
    };
    let vm = match vm_open() {
        Ok(vm) => vm,
        Err(e) => {
            return Err(TxError::Build(e));
        },
    };
    if !vm_contains_program(&vm, pid.as_str()) {
        match load_program(&vm, &nquery, &pid) {
            Ok(()) => {},
            Err(e) => {
                return Err(e);
            },
        }
    }
    let mut rng = fresh_rng();
    match vm_execute(
        &vm,
        &key,
        pid.as_str(),
        fname.as_str(),
        values,
        fee,
        amount,
        &nquery,
        &mut rng,
    ) {
        Ok(transaction) => Ok(transaction),
        Err(e) => Err(TxError::Build(e)),
    }
}

/// Builds a transaction that splits the record into two, one holding the
/// given amount. The target is `credits.aleo/split`, the one fee-exempt
/// function, so no fee record is needed: the fee policy confirms
/// `NoFeeRequired` rather than being bypassed, and the command never fails
/// with a fee-policy rejection. A malformed private key is a `Parse` error;
/// a string that is not a well-formed record is exactly
/// `Record(MalformedRecord)`; a well-formed record the key cannot open is
/// `Record(DecryptionFailed)`.
pub fn split(private_key: &str, record: &str, amount: u64, query: Option<&str>) -> (r: Result<
    String,
    TxError,
>)
    ensures
        !key_parses(private_key@) ==> (r matches Err(e) && e is Parse),
        key_parses(private_key@) && !record_parses(record@) ==> r == Err::<
            String,
            TxError,
        >(TxError::Record(RecordError::MalformedRecord)),
        r matches Err(e) ==> !(e is FeePolicyRejected),
{
    proof {
        reveal_strlit("credits.aleo");
        reveal_strlit("split");
        reveal_strlit("address");
        reveal_strlit("boolean");
        reveal_strlit("field");
        reveal_strlit("group");
        reveal_strlit("i8");
        reveal_strlit("i16");
        reveal_strlit("i32");
        reveal_strlit("i64");
        reveal_strlit("i128");
        reveal_strlit("u8");
        reveal_strlit("u16");
        reveal_strlit("u32");
        reveal_strlit("u64");
        reveal_strlit("u128");
        reveal_strlit("scalar");
        reveal_strlit("signature");
        reveal_strlit("string");
        reveal_strlit("identifier");
        let cid = "credits.aleo"@;
        let name = cid.subrange(0, 7);
        assert(name[0] == 'c' && name[1] == 'r' && name[2] == 'e' && name[3] == 'd' && name[4]
            == 'i' && name[5] == 't' && name[6] == 's');
        assert forall|i: int| 0 <= i < name.len() implies is_name_char(#[trigger] name[i]) by {
            if i == 0 {
            } else if i == 1 {
            } else if i == 2 {
            } else if i == 3 {
            } else if i == 4 {
            } else if i == 5 {
            }
        }
        assert(name != "address"@) by {
            if name == "address"@ {
                assert(name[0] == ("address"@)[0]);
            }
        }
        assert(name != "boolean"@) by {
            if name == "boolean"@ {
                assert(name[0] == ("boolean"@)[0]);
            }
        }
        assert(!is_reserved_type_name(name));
        assert(cid.subrange(7, 12) =~= seq!['.', 'a', 'l', 'e', 'o']);
        assert(valid_program_id(cid));
        let fname_v = "split"@;
        assert(fname_v[0] == 's' && fname_v[1] == 'p' && fname_v[2] == 'l' && fname_v[3] == 'i'
            && fname_v[4] == 't');
        assert forall|i: int| 0 <= i < fname_v.len() implies is_ident_char(
            #[trigger] fname_v[i],
        ) by {
            if i == 0 {
            } else if i == 1 {
            } else if i == 2 {
            } else if i == 3 {
            }
        }
        assert(fname_v != "field"@) by {
            if fname_v == "field"@ {
                assert(fname_v[0] == ("field"@)[0]);
            }
        }
        assert(fname_v != "group"@) by {
            if fname_v == "group"@ {
                assert(fname_v[0] == ("group"@)[0]);
            }
        }
        assert(!is_reserved_type_name(fname_v));
        assert(valid_identifier(fname_v));
    }
    let pid = match ProgramId::parse("credits.aleo") {
        Some(pid) => pid,
        None => {
            return Err(TxError::Parse(String::from_str("credits.aleo")));
        },
    };
    let fname = match FunctionName::parse("split") {
        Some(fname) => fname,
        None => {
            return Err(TxError::Parse(String::from_str("split")));
        },
    };
    let key = match private_key_from_str(private_key) {
        Ok(key) => key,
        Err(e) => {
            return Err(TxError::Parse(e));
        },
    };
    let spendable = match parse_record(&key, record) {
        Ok(spendable) => spendable,
        Err(e) => {
            return Err(TxError::Record(e));
        },
    };
    // The split function is fee-exempt: the policy owes `NoFeeRequired` here.
    let decision = decide::<NativeRecord>(&pid, &fname, None, None);
    assert(decision is NoFeeRequired);
    let mut amount_literal = dec_string(amount);
    amount_literal.append("u64");
    let amount_value = match value_from_str(amount_literal.as_str()) {
        Ok(amount_value) => amount_value,
        Err(e) => {
            return Err(TxError::Parse(e));
        },
    };
    let mut values: Vec<NativeValue> = Vec::new();
    values.push(value_from_record(spendable));
    values.push(amount_value);
    let endpoint = resolve_endpoint(query);
    let nquery = match query_from(endpoint.as_str()) {
        Ok(nquery) => nquery,
        Err(e) => {
            return Err(TxError::Network(e));
        },
    };
    let vm = match vm_open() {
        Ok(vm) => vm,
        Err(e) => {
            return Err(TxError::Build(e));
        },
    };
    let mut rng = fresh_rng();
    match vm_execute(
        &vm,
        &key,
        pid.as_str(),
        fname.as_str(),
        values,
        None,
        0,
        &nquery,
        &mut rng,
    ) {
        Ok(transaction) => Ok(transaction),
        Err(e) => Err(TxError::Build(e)),
    }
}

} // verus!
