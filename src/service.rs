//! The operations of the service layer, as decisions between engine calls.
//!
//! Each operation takes the registry as its lock handed it: `None` stands
//! for a lock that a panicking holder poisoned, which every operation turns
//! into an `Internal` error rather than a panic. Validation comes first,
//! then the registry, and only then engine work (connecting, running a
//! query, reading a schema), which the engine adapter performs between the
//! steps here.

use vstd::prelude::*;
use vstd::string::*;

use serde_json::Value;

use crate::domain::{infer_backend_kind, kind_of_uri};
use crate::encoder::{base64_of, ipc_stream_to_base64, row_keys};
use crate::ipc::{
    ArrowChunk, AuthDescriptor, ConnectProfile, ConnectResponseV1, DataChunk, DisconnectRequestV1,
    DisconnectResponseV1, ErrorCode, FtsSearchRequestV1, JsonChunk, QueryFilterRequestV1,
    QueryResponseV1, RenameTableRequestV1, RenameTableResponseV1, ResultEnvelope, ScanRequestV1,
    ScanResponseV1, SchemaDefinition, TableHandle,
};
use crate::merge::{key_texts, merge_ranked, merged};
use crate::paging::{look_ahead, look_ahead_limit, page_len, page_next, page_window, paginate_rows, sat_add, saturating_add, window, window_next};
use crate::query::{clean_projection, clone_texts, opt_text, opt_texts, sanitize_filter, sanitize_projection, QueryKind, QueryPlan};
use crate::registry::{owned_count, unowned, ConnectionManager, StoredTable};
use crate::text::{contains_str, lower_of, lowercase, non_blank, same_text, seq_contains, trim_of, trim_str};

verus! {

/// A failed envelope with the given code and no data.
pub open spec fn failed_with<R>(r: ResultEnvelope<R>, code: ErrorCode) -> bool {
    !r.ok && r.data is None && r.error_code() == Some(code)
}

/// What resolving table `id` under a lock gives: `Internal` when the lock
/// is poisoned, `NotFound` when the handle is not live, and otherwise a
/// clone of the table.
pub open spec fn resolves_table<C: Clone, T: Clone, X, R>(
    registry: Option<&ConnectionManager<C, T>>,
    id: Seq<char>,
    r: Result<(T, X), ResultEnvelope<R>>,
) -> bool {
    match registry {
        None => r matches Err(e) && failed_with(e, ErrorCode::Internal),
        Some(m) => match m.table_at(id) {
            None => r matches Err(e) && failed_with(e, ErrorCode::NotFound),
            Some(v) => r matches Ok(ok) && cloned(v.table, ok.0),
        },
    }
}

/// A page request against one query: the query with its look-ahead limit,
/// and the page the caller asked for.
pub struct PageRequest {
    pub plan: QueryPlan,
    pub limit: usize,
    pub offset: usize,
}

/// The page `limit`/`offset` of a request, with the look-ahead query for a
/// given kind, predicate and projection.
pub open spec fn page_request_ok(
    p: PageRequest,
    kind: QueryKind,
    filter: Option<Seq<char>>,
    projection: Option<Seq<Seq<char>>>,
    limit: usize,
    offset: usize,
) -> bool {
    &&& p.limit == limit
    &&& p.offset == offset
    &&& p.plan.kind == kind
    &&& opt_text(p.plan.filter) == filter
    &&& opt_texts(p.plan.projection) == projection
    &&& p.plan.limit == Some(look_ahead(limit as nat) as usize)
    &&& p.plan.offset == Some(offset)
}

fn page_request(kind: QueryKind, filter: Option<String>, projection: Option<Vec<String>>, limit: usize, offset: usize) -> (r: PageRequest)
    ensures
        page_request_ok(r, kind, opt_text(filter), opt_texts(projection), limit, offset),
{
    let plan = QueryPlan {
        kind,
        filter,
        limit: Some(look_ahead_limit(limit)),
        offset: Some(offset),
        projection,
    };
    PageRequest { plan, limit, offset }
}

/// Fails on a poisoned lock.
fn lock_failed<R>() -> (r: ResultEnvelope<R>)
    ensures
        failed_with(r, ErrorCode::Internal),
        !r.ok,
{
    ResultEnvelope::err(ErrorCode::Internal, "failed to lock connection manager")
}

/// The connection under `id`: `Internal` when the lock is poisoned,
/// `NotFound` when the handle is not live.
pub fn lookup_connection<C: Clone, T: Clone, R>(
    registry: Option<&ConnectionManager<C, T>>,
    id: &str,
) -> (r: Result<C, ResultEnvelope<R>>)
    ensures
        registry is None ==> (r matches Err(e) && failed_with(e, ErrorCode::Internal)),
        registry matches Some(m) ==> match m.connection_at(id@) {
            None => r matches Err(e) && failed_with(e, ErrorCode::NotFound),
            Some(v) => r matches Ok(c) && cloned(v, c),
        },
{
    match registry {
        None => Err(lock_failed()),
        Some(manager) => match manager.get_connection(id) {
            Some(c) => Ok(c),
            None => Err(ResultEnvelope::err(ErrorCode::NotFound, "connection not found")),
        },
    }
}

/// The table under `id`: `Internal` when the lock is poisoned, `NotFound`
/// when the handle is not live.
pub fn lookup_table<C: Clone, T: Clone, R>(
    registry: Option<&ConnectionManager<C, T>>,
    id: &str,
) -> (r: Result<T, ResultEnvelope<R>>)
    ensures
        registry is None ==> (r matches Err(e) && failed_with(e, ErrorCode::Internal)),
        registry matches Some(m) ==> match m.table_at(id@) {
            None => r matches Err(e) && failed_with(e, ErrorCode::NotFound),
            Some(v) => r matches Ok(t) && cloned(v.table, t),
        },
{
    match registry {
        None => Err(lock_failed()),
        Some(manager) => match manager.get_table(id) {
            Some(t) => Ok(t),
            None => Err(ResultEnvelope::err(ErrorCode::NotFound, "table not found")),
        },
    }
}

/// Checks the credentials of a connection profile: a secret reference is
/// not resolved by this layer and is refused rather than connecting
/// without credentials.
pub fn check_auth<R>(auth: &AuthDescriptor) -> (r: Result<(), ResultEnvelope<R>>)
    ensures
        auth is SecretRef <==> (r matches Err(e) && failed_with(e, ErrorCode::NotImplemented)),
        !(auth is SecretRef) ==> r is Ok,
{
    match auth {
        AuthDescriptor::SecretRef { .. } => Err(
            ResultEnvelope::err(
                ErrorCode::NotImplemented,
                "secret_ref auth is not supported; resolve it before connecting",
            ),
        ),
        _ => Ok(()),
    }
}

/// Registers an opened connection and describes it: its new handle, the
/// backend its URI names, its name and URI.
pub fn register_connection<C: Clone, T: Clone>(
    registry: Option<&mut ConnectionManager<C, T>>,
    connection: C,
    profile: ConnectProfile,
) -> (r: ResultEnvelope<ConnectResponseV1>)
    requires
        registry matches Some(m) ==> m.wf(),
    ensures
        registry matches Some(m) ==> final(m).wf(),
        registry is None ==> failed_with(r, ErrorCode::Internal),
        registry matches Some(m) ==> (r.ok && (r.data matches Some(d) && !m.issued().contains(
            d.connection_id@,
        ) && final(m).issued() == m.issued().insert(d.connection_id@) && m.connection_at(
            d.connection_id@,
        ) is None && final(m).connection_at(d.connection_id@) == Some(connection)
            && d.backend_kind == kind_of_uri(profile.uri@) && d.name@ == profile.name@ && d.uri@
            == profile.uri@)),
{
    match registry {
        None => lock_failed(),
        Some(manager) => {
            let backend_kind = infer_backend_kind(profile.uri.as_str());
            let connection_id = manager.insert_connection(connection);
            ResultEnvelope::ok(
                ConnectResponseV1 { connection_id, backend_kind, name: profile.name, uri: profile.uri },
            )
        },
    }
}

/// Releases a connection and, with it, every table opened under it.
pub fn disconnect_v1<C: Clone, T: Clone>(
    registry: Option<&mut ConnectionManager<C, T>>,
    request: DisconnectRequestV1,
) -> (r: ResultEnvelope<DisconnectResponseV1>)
    requires
        registry matches Some(m) ==> m.wf(),
    ensures
        registry matches Some(m) ==> final(m).wf(),
        registry matches Some(m) ==> final(m).issued() == m.issued(),
        registry is None ==> failed_with(r, ErrorCode::Internal),
        registry matches Some(m) ==> (m.connection_at(request.connection_id@) is None ==> (failed_with(r, ErrorCode::NotFound)
            && final(m).connection_slots() == m.connection_slots() && final(m).table_slots()
            == m.table_slots())),
        registry matches Some(m) ==> (m.connection_at(request.connection_id@) is Some ==> (r.ok
            && (r.data matches Some(d) && d.released_tables == owned_count(
            m.table_slots(),
            request.connection_id@,
        ) as usize) && final(m).table_slots() == unowned(m.table_slots(), request.connection_id@)
            && final(m).connection_at(request.connection_id@) is None)),
{
    match registry {
        None => lock_failed(),
        Some(manager) => match manager.remove_connection(request.connection_id.as_str()) {
            Some(count) => ResultEnvelope::ok(
                DisconnectResponseV1 { connection_id: request.connection_id, released_tables: count },
            ),
            None => ResultEnvelope::err(ErrorCode::NotFound, "connection not found"),
        },
    }
}

/// Registers a table opened, created or cloned under connection `owner`,
/// and returns its handle with its name.
pub fn register_table<C: Clone, T: Clone>(
    registry: Option<&mut ConnectionManager<C, T>>,
    name: String,
    table: T,
    owner: String,
) -> (r: ResultEnvelope<TableHandle>)
    requires
        registry matches Some(m) ==> m.wf(),
    ensures
        registry matches Some(m) ==> final(m).wf(),
        registry is None ==> failed_with(r, ErrorCode::Internal),
        registry matches Some(m) ==> (r.ok && (r.data matches Some(d) && !m.issued().contains(d.table_id@)
            && final(m).issued() == m.issued().insert(d.table_id@) && m.table_at(d.table_id@) is None
            && final(m).table_at(d.table_id@) == Some(StoredTable { name, owner, table })
            && d.name@ == name@)),
{
    match registry {
        None => lock_failed(),
        Some(manager) => {
            let shown = name.clone();
            let table_id = manager.insert_table(name, table, owner);
            ResultEnvelope::ok(TableHandle { table_id, name: shown })
        },
    }
}

/// `o`, or `d` when absent.
pub open spec fn or_default(o: Option<usize>, d: usize) -> usize {
    match o {
        Some(v) => v,
        None => d,
    }
}

/// An optional list kept only where it is non-empty.
pub open spec fn non_empty_list(o: Option<Seq<Seq<char>>>) -> Option<Seq<Seq<char>>> {
    match o {
        Some(v) => if v.len() > 0 {
            Some(v)
        } else {
            None
        },
        None => None,
    }
}

/// A copy of an optional string.
pub fn clone_opt_text(o: &Option<String>) -> (r: Option<String>)
    ensures
        opt_text(r) == opt_text(*o),
{
    match o {
        Some(s) => Some(s.clone()),
        None => None,
    }
}

/// A copy of an optional list of strings.
pub fn clone_opt_texts(o: &Option<Vec<String>>) -> (r: Option<Vec<String>>)
    ensures
        opt_texts(r) == opt_texts(*o),
{
    match o {
        Some(v) => Some(clone_texts(v)),
        None => None,
    }
}

/// A copy of an optional list of strings, kept only where it is non-empty.
fn non_empty_copy(o: &Option<Vec<String>>) -> (r: Option<Vec<String>>)
    ensures
        opt_texts(r) == non_empty_list(opt_texts(*o)),
{
    match o {
        Some(v) => if v.len() > 0 {
            Some(clone_texts(v))
        } else {
            None
        },
        None => None,
    }
}

/// Starts a scan: resolves the table and plans the look-ahead query with the
/// request's predicate and projection as given, 100 rows a page by default.
pub fn begin_scan<C: Clone, T: Clone>(
    registry: Option<&ConnectionManager<C, T>>,
    request: &ScanRequestV1,
) -> (r: Result<(T, PageRequest), ResultEnvelope<ScanResponseV1>>)
    ensures
        resolves_table(registry, request.table_id@, r),
        r matches Ok(ok) ==> page_request_ok(
            ok.1,
            QueryKind::Scan,
            opt_text(request.filter),
            clean_projection(opt_texts(request.projection)),
            or_default(request.limit, 100),
            or_default(request.offset, 0),
        ),
{
    let table = lookup_table(registry, request.table_id.as_str())?;
    let limit = match request.limit {
        Some(l) => l,
        None => 100,
    };
    let offset = match request.offset {
        Some(o) => o,
        None => 0,
    };
    let page = page_request(
        QueryKind::Scan,
        clone_opt_text(&request.filter),
        sanitize_projection(clone_opt_texts(&request.projection)),
        limit,
        offset,
    );
    Ok((table, page))
}

/// Starts a filtered query: a blank predicate is refused before anything
/// else; then the table is resolved and the look-ahead query planned with
/// the predicate, 100 rows a page by default.
pub fn begin_query_filter<C: Clone, T: Clone>(
    registry: Option<&ConnectionManager<C, T>>,
    request: &QueryFilterRequestV1,
) -> (r: Result<(T, PageRequest), ResultEnvelope<QueryResponseV1>>)
    ensures
        trim_of(request.filter@).len() == 0 ==> (r matches Err(e) && failed_with(e, ErrorCode::InvalidArgument)),
        trim_of(request.filter@).len() > 0 ==> resolves_table(registry, request.table_id@, r),
        r matches Ok(ok) ==> page_request_ok(
            ok.1,
            QueryKind::Scan,
            Some(request.filter@),
            clean_projection(opt_texts(request.projection)),
            or_default(request.limit, 100),
            or_default(request.offset, 0),
        ),
{
    if trim_str(request.filter.as_str()).unicode_len() == 0 {
        return Err(ResultEnvelope::err(ErrorCode::InvalidArgument, "filter expression cannot be empty"));
    }
    let table = lookup_table(registry, request.table_id.as_str())?;
    let limit = match request.limit {
        Some(l) => l,
        None => 100,
    };
    let offset = match request.offset {
        Some(o) => o,
        None => 0,
    };
    let page = page_request(
        QueryKind::Scan,
        Some(request.filter.clone()),
        sanitize_projection(clone_opt_texts(&request.projection)),
        limit,
        offset,
    );
    Ok((table, page))
}

/// Starts a full-text search: blank query text is refused before anything
/// else; then the table is resolved and the look-ahead query planned, on
/// the given columns where the list is non-empty, 100 rows a page by
/// default.
pub fn begin_fts_search<C: Clone, T: Clone>(
    registry: Option<&ConnectionManager<C, T>>,
    request: &FtsSearchRequestV1,
) -> (r: Result<(T, PageRequest), ResultEnvelope<QueryResponseV1>>)
    ensures
        trim_of(request.query@).len() == 0 ==> (r matches Err(e) && failed_with(e, ErrorCode::InvalidArgument)),
        trim_of(request.query@).len() > 0 ==> resolves_table(registry, request.table_id@, r),
        r matches Ok(ok) ==> (ok.1.plan.kind matches QueryKind::FullText { query, columns } && query@
            == request.query@ && opt_texts(columns) == non_empty_list(opt_texts(request.columns)))
            && opt_text(ok.1.plan.filter) == opt_text(request.filter) && opt_texts(
            ok.1.plan.projection,
        ) == clean_projection(opt_texts(request.projection)) && ok.1.limit == or_default(request.limit, 100)
            && ok.1.offset == or_default(request.offset, 0) && ok.1.plan.limit == Some(
            look_ahead(ok.1.limit as nat) as usize,
        ) && ok.1.plan.offset == Some(ok.1.offset),
{
    if trim_str(request.query.as_str()).unicode_len() == 0 {
        return Err(ResultEnvelope::err(ErrorCode::InvalidArgument, "query text cannot be empty"));
    }
    let table = lookup_table(registry, request.table_id.as_str())?;
    let limit = match request.limit {
        Some(l) => l,
        None => 100,
    };
    let offset = match request.offset {
        Some(o) => o,
        None => 0,
    };
    let kind = QueryKind::FullText {
        query: request.query.clone(),
        columns: non_empty_copy(&request.columns),
    };
    let page = page_request(
        kind,
        clone_opt_text(&request.filter),
        sanitize_projection(clone_opt_texts(&request.projection)),
        limit,
        offset,
    );
    Ok((table, page))
}

/// The JSON page of a look-ahead query: the rows cut to the page, with the
/// schema and the window, and the next offset where more rows came back.
pub fn json_page(rows: Vec<Value>, schema: SchemaDefinition, limit: usize, offset: usize) -> (r: QueryResponseV1)
    ensures
        r.chunk matches DataChunk::Json(c) && c.rows@ == rows@.take(page_len(rows@.len(), limit as nat) as int)
            && c.schema == schema && c.offset == offset && c.limit == limit,
        r.next_offset == page_next(rows@.len(), limit as nat, offset as nat),
{
    let (page, next_offset) = paginate_rows(rows, limit, offset);
    QueryResponseV1 {
        chunk: DataChunk::Json(JsonChunk { rows: page, schema, offset, limit }),
        next_offset,
    }
}

/// Starts a nearest-neighbour search for a query vector of `vector_len`
/// components: an empty vector is refused before anything else; then the
/// table is resolved and the look-ahead query planned, 10 rows a page by
/// default.
pub fn begin_vector_search<C: Clone, T: Clone>(
    registry: Option<&ConnectionManager<C, T>>,
    table_id: &str,
    vector_len: usize,
    column: &Option<String>,
    top_k: Option<usize>,
    offset: Option<usize>,
    projection: &Option<Vec<String>>,
    filter: &Option<String>,
    nprobes: Option<usize>,
    refine_factor: Option<u32>,
) -> (r: Result<(T, PageRequest), ResultEnvelope<QueryResponseV1>>)
    ensures
        vector_len == 0 ==> (r matches Err(e) && failed_with(e, ErrorCode::InvalidArgument)),
        vector_len > 0 ==> resolves_table(registry, table_id@, r),
        r matches Ok(ok) ==> (ok.1.plan.kind matches QueryKind::Vector { column: c, nprobes: n, refine_factor: f }
            && opt_text(c) == opt_text(*column) && n == nprobes && f == refine_factor)
            && opt_text(ok.1.plan.filter) == opt_text(*filter) && opt_texts(ok.1.plan.projection)
            == clean_projection(opt_texts(*projection)) && ok.1.limit == or_default(top_k, 10) && ok.1.offset
            == or_default(offset, 0) && ok.1.plan.limit == Some(look_ahead(ok.1.limit as nat) as usize)
            && ok.1.plan.offset == Some(ok.1.offset),
{
    if vector_len == 0 {
        return Err(ResultEnvelope::err(ErrorCode::InvalidArgument, "vector must not be empty"));
    }
    let table = lookup_table(registry, table_id)?;
    let limit = match top_k {
        Some(l) => l,
        None => 10,
    };
    let start = match offset {
        Some(o) => o,
        None => 0,
    };
    let kind = QueryKind::Vector { column: clone_opt_text(column), nprobes, refine_factor };
    let page = page_request(kind, clone_opt_text(filter), sanitize_projection(clone_opt_texts(projection)), limit, start);
    Ok((table, page))
}

/// The two queries of a hybrid search and the page it asks for. Each query
/// fetches `offset + limit` rows from the start; the offset is applied
/// after merging.
pub struct HybridPlan {
    pub vector: Option<QueryPlan>,
    pub text: Option<QueryPlan>,
    pub limit: usize,
    pub offset: usize,
}

/// The options both hybrid queries share: the cleaned predicate, the
/// projection where non-empty, `fetch` rows from the start.
pub open spec fn hybrid_options_ok(
    p: QueryPlan,
    filter: Option<Seq<char>>,
    projection: Option<Seq<Seq<char>>>,
    fetch: nat,
) -> bool {
    &&& opt_text(p.filter) == non_blank(filter)
    &&& opt_texts(p.projection) == clean_projection(projection)
    &&& p.limit == Some(fetch as usize)
    &&& p.offset is None
}

/// Starts a hybrid search for a query vector of `vector_len` components
/// (zero where none was given) and/or query text: with neither, it is
/// refused before anything else; then the table is resolved and one query
/// planned for each of the two that is present, 50 rows a page by default.
pub fn begin_combined_search<C: Clone, T: Clone>(
    registry: Option<&ConnectionManager<C, T>>,
    table_id: &str,
    vector_len: usize,
    vector_column: &Option<String>,
    query: &Option<String>,
    columns: &Option<Vec<String>>,
    projection: &Option<Vec<String>>,
    filter: &Option<String>,
    limit: Option<usize>,
    offset: Option<usize>,
    nprobes: Option<usize>,
    refine_factor: Option<u32>,
) -> (r: Result<(T, HybridPlan), ResultEnvelope<QueryResponseV1>>)
    ensures
        vector_len == 0 && non_blank(opt_text(*query)) is None ==> (r matches Err(e) && failed_with(e, ErrorCode::InvalidArgument)),
        (vector_len > 0 || non_blank(opt_text(*query)) is Some) ==> resolves_table(registry, table_id@, r),
        r matches Ok(ok) ==> {
            let plan = ok.1;
            let fetch = sat_add(plan.limit as nat, plan.offset as nat);
            &&& plan.limit == or_default(limit, 50)
            &&& plan.offset == or_default(offset, 0)
            &&& (plan.vector is Some <==> vector_len > 0)
            &&& (plan.text is Some <==> non_blank(opt_text(*query)) is Some)
            &&& (plan.vector matches Some(v) ==> hybrid_options_ok(
                v,
                opt_text(*filter),
                opt_texts(*projection),
                fetch,
            ) && (v.kind matches QueryKind::Vector { column: c, nprobes: n, refine_factor: f }
                && opt_text(c) == non_blank(opt_text(*vector_column)) && n == nprobes && f
                == refine_factor))
            &&& (plan.text matches Some(t) ==> hybrid_options_ok(
                t,
                opt_text(*filter),
                opt_texts(*projection),
                fetch,
            ) && (t.kind matches QueryKind::FullText { query: q, columns: cs } && Some(q@)
                == non_blank(opt_text(*query)) && opt_texts(cs) == non_empty_list(
                opt_texts(*columns),
            )))
        },
{
    let text = sanitize_filter(clone_opt_text(query));
    if vector_len == 0 && text.is_none() {
        return Err(ResultEnvelope::err(ErrorCode::InvalidArgument, "vector or query text is required"));
    }
    let table = lookup_table(registry, table_id)?;
    let page_limit = match limit {
        Some(l) => l,
        None => 50,
    };
    let start = match offset {
        Some(o) => o,
        None => 0,
    };
    let fetch = saturating_add(page_limit, start);
    let vector = if vector_len > 0 {
        let kind = QueryKind::Vector { column: sanitize_filter(clone_opt_text(vector_column)), nprobes, refine_factor };
        Some(QueryPlan {
            kind,
            filter: sanitize_filter(clone_opt_text(filter)),
            limit: Some(fetch),
            offset: None,
            projection: sanitize_projection(clone_opt_texts(projection)),
        })
    } else {
        None
    };
    let text_plan = match text {
        Some(q) => {
            let kind = QueryKind::FullText { query: q, columns: non_empty_copy(columns) };
            Some(QueryPlan {
                kind,
                filter: sanitize_filter(clone_opt_text(filter)),
                limit: Some(fetch),
                offset: None,
                projection: sanitize_projection(clone_opt_texts(projection)),
            })
        },
        None => None,
    };
    Ok((table, HybridPlan { vector, text: text_plan, limit: page_limit, offset: start }))
}

/// The schema of a hybrid result: the vector query's, else the full-text
/// query's, else the table's.
pub fn pick_schema(
    vector: Option<SchemaDefinition>,
    text: Option<SchemaDefinition>,
    fallback: SchemaDefinition,
) -> (r: SchemaDefinition)
    ensures
        r == (match vector {
            Some(v) => v,
            None => match text {
                Some(t) => t,
                None => fallback,
            },
        }),
{
    match vector {
        Some(v) => v,
        None => match text {
            Some(t) => t,
            None => fallback,
        },
    }
}

/// The page of a hybrid search, given each row's canonical text: vector
/// rows then full-text rows, each row kept the first time its text
/// appears, then `offset` rows skipped and at most `limit` kept; the next
/// offset is `offset + limit` when the merged list reaches past it.
pub fn hybrid_page_keyed(
    vector_rows: Vec<Value>,
    vector_keys: &Vec<String>,
    text_rows: Vec<Value>,
    text_keys: &Vec<String>,
    schema: SchemaDefinition,
    limit: usize,
    offset: usize,
) -> (r: QueryResponseV1)
    requires
        vector_rows@.len() == vector_keys@.len(),
        text_rows@.len() == text_keys@.len(),
    ensures
        ({
            let all = merged(vector_rows@, key_texts(vector_keys@), text_rows@, key_texts(text_keys@));
            &&& r.chunk matches DataChunk::Json(c) && c.rows@ == window(all, limit as nat, offset as nat)
                && c.schema == schema && c.offset == offset && c.limit == limit
            &&& r.next_offset == window_next(all.len(), limit as nat, offset as nat)
        }),
{
    let all = merge_ranked(vector_rows, vector_keys, text_rows, text_keys);
    let (rows, next_offset) = page_window(all, limit, offset);
    QueryResponseV1 { chunk: DataChunk::Json(JsonChunk { rows, schema, offset, limit }), next_offset }
}

/// The page of a hybrid search, deduplicating rows by their compact JSON
/// text (see `hybrid_page_keyed`).
pub fn hybrid_page(
    vector_rows: Vec<Value>,
    text_rows: Vec<Value>,
    schema: SchemaDefinition,
    limit: usize,
    offset: usize,
) -> (r: QueryResponseV1)
    ensures
        exists|vk: Seq<String>, tk: Seq<String>|
            #![trigger merged(vector_rows@, key_texts(vk), text_rows@, key_texts(tk))]
            {
            let all = merged(vector_rows@, key_texts(vk), text_rows@, key_texts(tk));
            &&& vk.len() == vector_rows@.len() && tk.len() == text_rows@.len()
            &&& r.chunk matches DataChunk::Json(c) && c.rows@ == window(all, limit as nat, offset as nat)
                && c.schema == schema && c.offset == offset && c.limit == limit
            &&& r.next_offset == window_next(all.len(), limit as nat, offset as nat)
        },
{
    let vector_keys = row_keys(&vector_rows);
    let text_keys = row_keys(&text_rows);
    let r = hybrid_page_keyed(vector_rows, &vector_keys, text_rows, &text_keys, schema, limit, offset);
    let ghost all = merged(vector_rows@, key_texts(vector_keys@), text_rows@, key_texts(text_keys@));
    assert(vector_keys@.len() == vector_rows@.len() && text_keys@.len() == text_rows@.len());
    r
}

/// The JSON page of a scan (see `json_page`).
pub fn json_scan_page(rows: Vec<Value>, schema: SchemaDefinition, limit: usize, offset: usize) -> (r: ScanResponseV1)
    ensures
        r.chunk matches DataChunk::Json(c) && c.rows@ == rows@.take(page_len(rows@.len(), limit as nat) as int)
            && c.schema == schema && c.offset == offset && c.limit == limit,
        r.next_offset == page_next(rows@.len(), limit as nat, offset as nat),
{
    let page = json_page(rows, schema, limit, offset);
    ScanResponseV1 { chunk: page.chunk, next_offset: page.next_offset }
}

/// The columnar page of a scan: the IPC stream of the page's batches as
/// base64 text, uncompressed, with the next offset that `page_batches`
/// reported.
pub fn arrow_scan_page(stream: &Vec<u8>, next_offset: Option<usize>) -> (r: ScanResponseV1)
    ensures
        r.chunk matches DataChunk::Arrow(c) && c.ipc_base64@ == base64_of(stream@) && c.compression is None,
        r.next_offset == next_offset,
{
    let ipc_base64 = ipc_stream_to_base64(stream);
    ScanResponseV1 { chunk: DataChunk::Arrow(ArrowChunk { ipc_base64, compression: None }), next_offset }
}

/// A required text: trimmed, and refused as an invalid argument with
/// `message` when blank.
pub fn require_text<R>(value: &str, message: &str) -> (r: Result<String, ResultEnvelope<R>>)
    ensures
        trim_of(value@).len() == 0 <==> (r matches Err(e) && failed_with(e, ErrorCode::InvalidArgument) && (e.error matches Some(x) && x.message@ == message@)),
        r is Ok <==> trim_of(value@).len() > 0,
        r matches Ok(t) ==> t@ == trim_of(value@),
{
    let t = trim_str(value);
    if t.unicode_len() == 0 {
        Err(ResultEnvelope::err(ErrorCode::InvalidArgument, message))
    } else {
        Ok(String::from_str(t))
    }
}

/// Checks a rename: both names are trimmed, neither may be blank, and the
/// new one must differ. Returns the two trimmed names.
pub fn check_rename(request: &RenameTableRequestV1) -> (r: Result<(String, String), ResultEnvelope<RenameTableResponseV1>>)
    ensures
        ({
            let from = trim_of(request.table_name@);
            let to = trim_of(request.new_table_name@);
            &&& (from.len() == 0 || to.len() == 0 || from == to) <==> (r matches Err(e) && failed_with(e, ErrorCode::InvalidArgument))
            &&& !(from.len() == 0 || to.len() == 0 || from == to) <==> r is Ok
            &&& r matches Ok(names) ==> names.0@ == from && names.1@ == to
        }),
{
    let from = match require_text(request.table_name.as_str(), "table name cannot be empty") {
        Ok(t) => t,
        Err(e) => return Err(e),
    };
    let to = match require_text(request.new_table_name.as_str(), "new table name cannot be empty") {
        Ok(t) => t,
        Err(e) => return Err(e),
    };
    if same_text(from.as_str(), to.as_str()) {
        return Err(
            ResultEnvelope::err(ErrorCode::InvalidArgument, "new table name must differ from the current name"),
        );
    }
    Ok((from, to))
}

/// The code for an engine error on a rename or a maintenance action: one
/// the engine does not support (its message says "not supported", in any
/// letter case) is `NotImplemented`; anything else is `Internal`.
pub fn engine_error_code(message: &str) -> (r: ErrorCode)
    ensures
        r == (if seq_contains(lower_of(message@), "not supported"@) {
            ErrorCode::NotImplemented
        } else {
            ErrorCode::Internal
        }),
{
    let lower = lowercase(message);
    if contains_str(lower.as_str(), "not supported") {
        ErrorCode::NotImplemented
    } else {
        ErrorCode::Internal
    }
}

} // verus!
