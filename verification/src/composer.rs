//! Assembly of the composite API specification document: schema and path
//! registries with last-write-wins keys, populated first from entries
//! derived from the handlers this process implements and then from manual
//! registrations for endpoints served elsewhere, producing one immutable
//! document.

use crate::extra_schemas::{example_scraped_result, CrawledResult};
use crate::kvlist::{
    has_key, insert_all, insert_keyed, lemma_insert_all_push, lemma_insert_all_unique,
    lemma_insert_append, lemma_insert_at_index, lemma_insert_exactly_one, lemma_insert_unique,
    lookup_keyed, unique_keys,
};
use vstd::prelude::*;

verus! {

/// HTTP method of an operation; with the path it forms the unique key of
/// the path registry.
#[derive(Clone, Copy, Debug, PartialEq, Eq, Structural)]
pub enum HttpMethod {
    Get,
    Post,
    Put,
    Delete,
    Patch,
    Head,
    Options,
}

/// A named schema definition; the definition text itself is an opaque blob
/// to the registries, which only key on the name.
#[derive(Debug, Clone, PartialEq)]
pub struct SchemaEntry {
    pub name: String,
    pub definition: String,
}

/// What one operation documents: its summary, schema references and, for
/// endpoints served elsewhere, a literal response example that automatic
/// derivation could never produce.
#[derive(Debug, Clone, PartialEq)]
pub struct OperationDescriptor {
    pub summary: String,
    pub request_body_schema_ref: Option<String>,
    pub response_schema_ref: String,
    pub response_example: Option<CrawledResult>,
}

/// One operation registered under its `(path, method)` key.
#[derive(Debug, Clone, PartialEq)]
pub struct PathEntry {
    pub path: String,
    pub method: HttpMethod,
    pub op: OperationDescriptor,
}

/// A named security scheme: an OAuth2 password flow against `token_url`.
#[derive(Debug, Clone, PartialEq)]
pub struct SecurityScheme {
    pub name: String,
    pub token_url: String,
}

/// The document's component container: named schemas and security schemes.
#[derive(Debug, Clone, PartialEq)]
pub struct Components {
    pub schemas: Vec<SchemaEntry>,
    pub security_schemes: Vec<SecurityScheme>,
}

/// The assembled specification document: service metadata, the component
/// container, and the path registry.  Built once at startup; read-only
/// afterwards.
#[derive(Debug, Clone, PartialEq)]
pub struct CompositeDocument {
    pub title: String,
    pub description: String,
    pub components: Option<Components>,
    pub paths: Vec<PathEntry>,
}

/// A manual registration: one hand-authored schema or path entry, applied
/// after automatic derivation and silently overriding an entry that shares
/// its key.
#[derive(Debug, Clone, PartialEq)]
pub enum RegistrationOp {
    Schema(SchemaEntry),
    Path(PathEntry),
}

/// Schema list seen as a keyed association list: keyed by name.
pub open spec fn schema_kv(s: Seq<SchemaEntry>) -> Seq<(Seq<char>, SchemaEntry)> {
    s.map_values(|e: SchemaEntry| (e.name@, e))
}

/// The registry key of a path entry.
pub open spec fn path_key(e: PathEntry) -> (Seq<char>, HttpMethod) {
    (e.path@, e.method)
}

/// Path list seen as a keyed association list: keyed by `(path, method)`.
pub open spec fn path_kv(s: Seq<PathEntry>) -> Seq<((Seq<char>, HttpMethod), PathEntry)> {
    s.map_values(|e: PathEntry| (path_key(e), e))
}

/// The schema registry after a sequence of registrations, front first.
pub open spec fn ops_schemas(
    s: Seq<(Seq<char>, SchemaEntry)>,
    ops: Seq<RegistrationOp>,
) -> Seq<(Seq<char>, SchemaEntry)>
    decreases ops.len(),
{
    if ops.len() == 0 {
        s
    } else {
        match ops[0] {
            RegistrationOp::Schema(e) => ops_schemas(insert_keyed(s, e.name@, e), ops.drop_first()),
            RegistrationOp::Path(_) => ops_schemas(s, ops.drop_first()),
        }
    }
}

/// The path registry after a sequence of registrations, front first.
pub open spec fn ops_paths(
    s: Seq<((Seq<char>, HttpMethod), PathEntry)>,
    ops: Seq<RegistrationOp>,
) -> Seq<((Seq<char>, HttpMethod), PathEntry)>
    decreases ops.len(),
{
    if ops.len() == 0 {
        s
    } else {
        match ops[0] {
            RegistrationOp::Schema(_) => ops_paths(s, ops.drop_first()),
            RegistrationOp::Path(e) => ops_paths(insert_keyed(s, path_key(e), e), ops.drop_first()),
        }
    }
}

proof fn lemma_ops_schemas_push(
    s: Seq<(Seq<char>, SchemaEntry)>,
    ops: Seq<RegistrationOp>,
    op: RegistrationOp,
)
    ensures
        ops_schemas(s, ops.push(op)) == (match op {
            RegistrationOp::Schema(e) => insert_keyed(ops_schemas(s, ops), e.name@, e),
            RegistrationOp::Path(_) => ops_schemas(s, ops),
        }),
    decreases ops.len(),
{
    if ops.len() == 0 {
        assert(ops.push(op)[0] == op);
        assert(ops.push(op).drop_first() =~= Seq::<RegistrationOp>::empty());
        match op {
            RegistrationOp::Schema(e) => {
                assert(ops_schemas(s, ops.push(op)) == ops_schemas(
                    insert_keyed(s, e.name@, e),
                    ops.push(op).drop_first(),
                ));
            },
            RegistrationOp::Path(_) => {
                assert(ops_schemas(s, ops.push(op)) == ops_schemas(s, ops.push(op).drop_first()));
            },
        }
    } else {
        assert(ops.push(op)[0] == ops[0]);
        assert(ops.push(op).drop_first() =~= ops.drop_first().push(op));
        match ops[0] {
            RegistrationOp::Schema(e) => {
                assert(ops_schemas(s, ops.push(op)) == ops_schemas(
                    insert_keyed(s, e.name@, e),
                    ops.drop_first().push(op),
                ));
                lemma_ops_schemas_push(insert_keyed(s, e.name@, e), ops.drop_first(), op);
            },
            RegistrationOp::Path(_) => {
                assert(ops_schemas(s, ops.push(op)) == ops_schemas(s, ops.drop_first().push(op)));
                lemma_ops_schemas_push(s, ops.drop_first(), op);
            },
        }
    }
}

proof fn lemma_ops_paths_push(
    s: Seq<((Seq<char>, HttpMethod), PathEntry)>,
    ops: Seq<RegistrationOp>,
    op: RegistrationOp,
)
    ensures
        ops_paths(s, ops.push(op)) == (match op {
            RegistrationOp::Schema(_) => ops_paths(s, ops),
            RegistrationOp::Path(e) => insert_keyed(ops_paths(s, ops), path_key(e), e),
        }),
    decreases ops.len(),
{
    if ops.len() == 0 {
        assert(ops.push(op)[0] == op);
        assert(ops.push(op).drop_first() =~= Seq::<RegistrationOp>::empty());
        match op {
            RegistrationOp::Schema(_) => {
                assert(ops_paths(s, ops.push(op)) == ops_paths(s, ops.push(op).drop_first()));
            },
            RegistrationOp::Path(e) => {
                assert(ops_paths(s, ops.push(op)) == ops_paths(
                    insert_keyed(s, path_key(e), e),
                    ops.push(op).drop_first(),
                ));
            },
        }
    } else {
        assert(ops.push(op)[0] == ops[0]);
        assert(ops.push(op).drop_first() =~= ops.drop_first().push(op));
        match ops[0] {
            RegistrationOp::Schema(_) => {
                assert(ops_paths(s, ops.push(op)) == ops_paths(s, ops.drop_first().push(op)));
                lemma_ops_paths_push(s, ops.drop_first(), op);
            },
            RegistrationOp::Path(e) => {
                assert(ops_paths(s, ops.push(op)) == ops_paths(
                    insert_keyed(s, path_key(e), e),
                    ops.drop_first().push(op),
                ));
                lemma_ops_paths_push(insert_keyed(s, path_key(e), e), ops.drop_first(), op);
            },
        }
    }
}

proof fn lemma_ops_schemas_unique(s: Seq<(Seq<char>, SchemaEntry)>, ops: Seq<RegistrationOp>)
    requires
        unique_keys(s),
    ensures
        unique_keys(ops_schemas(s, ops)),
    decreases ops.len(),
{
    if ops.len() == 0 {
    } else {
        match ops[0] {
            RegistrationOp::Schema(e) => {
                lemma_insert_unique(s, e.name@, e);
                lemma_ops_schemas_unique(insert_keyed(s, e.name@, e), ops.drop_first());
            },
            RegistrationOp::Path(_) => {
                lemma_ops_schemas_unique(s, ops.drop_first());
            },
        }
    }
}

proof fn lemma_ops_paths_unique(s: Seq<((Seq<char>, HttpMethod), PathEntry)>, ops: Seq<RegistrationOp>)
    requires
        unique_keys(s),
    ensures
        unique_keys(ops_paths(s, ops)),
    decreases ops.len(),
{
    if ops.len() == 0 {
    } else {
        match ops[0] {
            RegistrationOp::Schema(_) => {
                lemma_ops_paths_unique(s, ops.drop_first());
            },
            RegistrationOp::Path(e) => {
                lemma_insert_unique(s, path_key(e), e);
                lemma_ops_paths_unique(insert_keyed(s, path_key(e), e), ops.drop_first());
            },
        }
    }
}

/// Last-write-wins insertion into the schema list: a present name keeps its
/// position and takes the new definition; a new name is appended.
fn insert_schema_entry(v: &mut Vec<SchemaEntry>, e: SchemaEntry)
    ensures
        schema_kv(final(v)@) == insert_keyed(schema_kv(old(v)@), e.name@, e),
{
    let ghost kv0 = schema_kv(old(v)@);
    let mut i: usize = 0;
    while i < v.len()
        invariant
            0 <= i <= v.len(),
            v@ == old(v)@,
            kv0 == schema_kv(old(v)@),
            forall|j: int| 0 <= j < i ==> old(v)@[j].name@ != e.name@,
        decreases v.len() - i,
    {
        if v[i].name == e.name {
            proof {
                assert(kv0[i as int] == (old(v)@[i as int].name@, old(v)@[i as int]));
                assert forall|j: int| 0 <= j < i implies kv0[j].0 != e.name@ by {
                    assert(kv0[j] == (old(v)@[j].name@, old(v)@[j]));
                }
                lemma_insert_at_index(kv0, e.name@, e, i as int);
            }
            v.set(i, e);
            assert(schema_kv(v@) =~= kv0.update(i as int, (e.name@, e)));
            return ;
        }
        i += 1;
    }
    proof {
        assert(!has_key(kv0, e.name@)) by {
            if has_key(kv0, e.name@) {
                let j = choose|j: int| 0 <= j < kv0.len() && kv0[j].0 == e.name@;
                assert(kv0[j] == (old(v)@[j].name@, old(v)@[j]));
            }
        }
        lemma_insert_append(kv0, e.name@, e);
    }
    v.push(e);
    assert(schema_kv(v@) =~= kv0.push((e.name@, e)));
}

/// Last-write-wins insertion into the path list, keyed by `(path, method)`.
fn insert_path_entry(v: &mut Vec<PathEntry>, e: PathEntry)
    ensures
        path_kv(final(v)@) == insert_keyed(path_kv(old(v)@), path_key(e), e),
{
    let ghost kv0 = path_kv(old(v)@);
    let mut i: usize = 0;
    while i < v.len()
        invariant
            0 <= i <= v.len(),
            v@ == old(v)@,
            kv0 == path_kv(old(v)@),
            forall|j: int| 0 <= j < i ==> path_key(old(v)@[j]) != path_key(e),
        decreases v.len() - i,
    {
        if v[i].path == e.path && v[i].method == e.method {
            proof {
                assert(kv0[i as int] == (path_key(old(v)@[i as int]), old(v)@[i as int]));
                assert(path_key(old(v)@[i as int]) == path_key(e));
                assert forall|j: int| 0 <= j < i implies kv0[j].0 != path_key(e) by {
                    assert(kv0[j] == (path_key(old(v)@[j]), old(v)@[j]));
                }
                lemma_insert_at_index(kv0, path_key(e), e, i as int);
            }
            v.set(i, e);
            assert(path_kv(v@) =~= kv0.update(i as int, (path_key(e), e)));
            return ;
        }
        i += 1;
    }
    proof {
        assert(!has_key(kv0, path_key(e))) by {
            if has_key(kv0, path_key(e)) {
                let j = choose|j: int| 0 <= j < kv0.len() && kv0[j].0 == path_key(e);
                assert(kv0[j] == (path_key(old(v)@[j]), old(v)@[j]));
            }
        }
        lemma_insert_append(kv0, path_key(e), e);
    }
    v.push(e);
    assert(path_kv(v@) =~= kv0.push((path_key(e), e)));
}

/// Fold a batch of automatically derived schema entries into an empty
/// registry, front first.
fn fold_schema_entries(entries: Vec<SchemaEntry>) -> (v: Vec<SchemaEntry>)
    ensures
        schema_kv(v@) == insert_all(Seq::<(Seq<char>, SchemaEntry)>::empty(), schema_kv(entries@)),
{
    let ghost orig = entries@;
    let mut entries = entries;
    let mut v: Vec<SchemaEntry> = Vec::new();
    let ghost mut i: int = 0;
    assert(schema_kv(orig.take(0)) =~= Seq::<(Seq<char>, SchemaEntry)>::empty());
    assert(entries@ =~= orig.skip(0));
    while entries.len() > 0
        invariant
            0 <= i <= orig.len(),
            entries@ == orig.skip(i),
            schema_kv(v@) == insert_all(
                Seq::<(Seq<char>, SchemaEntry)>::empty(),
                schema_kv(orig.take(i)),
            ),
        decreases entries.len(),
    {
        let e = entries.remove(0);
        assert(e == orig[i]);
        insert_schema_entry(&mut v, e);
        proof {
            assert(schema_kv(orig.take(i + 1)) =~= schema_kv(orig.take(i)).push((
                orig[i].name@,
                orig[i],
            )));
            lemma_insert_all_push(
                Seq::<(Seq<char>, SchemaEntry)>::empty(),
                schema_kv(orig.take(i)),
                (orig[i].name@, orig[i]),
            );
            assert(entries@ =~= orig.skip(i + 1));
            i = i + 1;
        }
    }
    assert(orig.take(i) =~= orig);
    v
}

/// Fold a batch of automatically derived path entries into an empty
/// registry, front first.
fn fold_path_entries(entries: Vec<PathEntry>) -> (v: Vec<PathEntry>)
    ensures
        path_kv(v@) == insert_all(
            Seq::<((Seq<char>, HttpMethod), PathEntry)>::empty(),
            path_kv(entries@),
        ),
{
    let ghost orig = entries@;
    let mut entries = entries;
    let mut v: Vec<PathEntry> = Vec::new();
    let ghost mut i: int = 0;
    assert(path_kv(orig.take(0)) =~= Seq::<((Seq<char>, HttpMethod), PathEntry)>::empty());
    assert(entries@ =~= orig.skip(0));
    while entries.len() > 0
        invariant
            0 <= i <= orig.len(),
            entries@ == orig.skip(i),
            path_kv(v@) == insert_all(
                Seq::<((Seq<char>, HttpMethod), PathEntry)>::empty(),
                path_kv(orig.take(i)),
            ),
        decreases entries.len(),
    {
        let e = entries.remove(0);
        assert(e == orig[i]);
        insert_path_entry(&mut v, e);
        proof {
            assert(path_kv(orig.take(i + 1)) =~= path_kv(orig.take(i)).push((
                path_key(orig[i]),
                orig[i],
            )));
            lemma_insert_all_push(
                Seq::<((Seq<char>, HttpMethod), PathEntry)>::empty(),
                path_kv(orig.take(i)),
                (path_key(orig[i]), orig[i]),
            );
            assert(entries@ =~= orig.skip(i + 1));
            i = i + 1;
        }
    }
    assert(orig.take(i) =~= orig);
    v
}

impl CompositeDocument {
    /// The registered schemas, keyed by name; empty while the component
    /// container is absent.
    pub open spec fn schema_entries(&self) -> Seq<(Seq<char>, SchemaEntry)> {
        match self.components {
            Some(c) => schema_kv(c.schemas@),
            None => Seq::<(Seq<char>, SchemaEntry)>::empty(),
        }
    }

    /// The registered paths, keyed by `(path, method)`.
    pub open spec fn path_entries(&self) -> Seq<((Seq<char>, HttpMethod), PathEntry)> {
        path_kv(self.paths@)
    }

    /// The attached security schemes, in order of attachment.
    pub open spec fn security_schemes(&self) -> Seq<SecurityScheme> {
        match self.components {
            Some(c) => c.security_schemes@,
            None => Seq::<SecurityScheme>::empty(),
        }
    }

    /// Well-formedness: no duplicate schema name, no duplicate
    /// `(path, method)` key.
    pub open spec fn wf(&self) -> bool {
        unique_keys(self.schema_entries()) && unique_keys(self.path_entries())
    }

    /// Whether the component container is present.  Attaching a security
    /// scheme without it is a programming error that must abort startup;
    /// the caller checks this first and fails fast.
    pub fn has_components(&self) -> (r: bool)
        ensures
            r == (self.components is Some),
    {
        match &self.components {
            Some(_) => true,
            None => false,
        }
    }

    /// The document automatic derivation yields: service metadata, the
    /// automatically derived schemas and paths folded in, a component
    /// container present and no security scheme attached yet.
    pub fn base_document(
        title: String,
        description: String,
        auto_schemas: Vec<SchemaEntry>,
        auto_paths: Vec<PathEntry>,
    ) -> (d: CompositeDocument)
        ensures
            d.title == title,
            d.description == description,
            d.components is Some,
            d.security_schemes() == Seq::<SecurityScheme>::empty(),
            d.schema_entries() == insert_all(
                Seq::<(Seq<char>, SchemaEntry)>::empty(),
                schema_kv(auto_schemas@),
            ),
            d.path_entries() == insert_all(
                Seq::<((Seq<char>, HttpMethod), PathEntry)>::empty(),
                path_kv(auto_paths@),
            ),
            d.wf(),
    {
        let schemas = fold_schema_entries(auto_schemas);
        let paths = fold_path_entries(auto_paths);
        proof {
            lemma_insert_all_unique(
                Seq::<(Seq<char>, SchemaEntry)>::empty(),
                schema_kv(auto_schemas@),
            );
            lemma_insert_all_unique(
                Seq::<((Seq<char>, HttpMethod), PathEntry)>::empty(),
                path_kv(auto_paths@),
            );
        }
        CompositeDocument {
            title,
            description,
            components: Some(Components { schemas, security_schemes: Vec::new() }),
            paths,
        }
    }

    /// Attach a named security scheme.  The component container must be
    /// present: a document with a dangling security-scheme reference is
    /// invalid, so its absence aborts startup rather than being tolerated.
    pub fn add_security_scheme(&mut self, scheme: SecurityScheme)
        requires
            old(self).components is Some,
        ensures
            final(self).title == old(self).title,
            final(self).description == old(self).description,
            final(self).components is Some,
            final(self).schema_entries() == old(self).schema_entries(),
            final(self).path_entries() == old(self).path_entries(),
            final(self).security_schemes() == old(self).security_schemes().push(scheme),
    {
        let c = self.components.take();
        match c {
            Some(mut comp) => {
                comp.security_schemes.push(scheme);
                self.components = Some(comp);
            },
            None => {
                self.components = None;
            },
        }
    }

    /// Register a schema under its name, replacing a present entry of the
    /// same name; without a component container there is nowhere to put it
    /// and the registration is skipped.
    pub fn register_schema(&mut self, e: SchemaEntry)
        ensures
            final(self).title == old(self).title,
            final(self).description == old(self).description,
            (final(self).components is Some <==> old(self).components is Some),
            final(self).security_schemes() == old(self).security_schemes(),
            final(self).path_entries() == old(self).path_entries(),
            old(self).components is Some ==> final(self).schema_entries() == insert_keyed(
                old(self).schema_entries(),
                e.name@,
                e,
            ),
            old(self).components is None ==> final(self).schema_entries() == old(
                self,
            ).schema_entries(),
    {
        let c = self.components.take();
        match c {
            Some(mut comp) => {
                insert_schema_entry(&mut comp.schemas, e);
                self.components = Some(comp);
            },
            None => {
                self.components = None;
            },
        }
    }

    /// Register an operation under its `(path, method)` key, replacing a
    /// present entry at the same key.
    pub fn register_path(&mut self, e: PathEntry)
        ensures
            final(self).title == old(self).title,
            final(self).description == old(self).description,
            final(self).components == old(self).components,
            final(self).security_schemes() == old(self).security_schemes(),
            final(self).schema_entries() == old(self).schema_entries(),
            final(self).path_entries() == insert_keyed(
                old(self).path_entries(),
                path_key(e),
                e,
            ),
    {
        insert_path_entry(&mut self.paths, e);
    }

    /// Apply one manual registration.
    pub fn apply_registration(&mut self, op: RegistrationOp)
        ensures
            final(self).title == old(self).title,
            final(self).description == old(self).description,
            (final(self).components is Some <==> old(self).components is Some),
            final(self).security_schemes() == old(self).security_schemes(),
            (match op {
                RegistrationOp::Schema(e) => final(self).path_entries() == old(self).path_entries()
                    && (old(self).components is Some ==> final(self).schema_entries()
                    == insert_keyed(old(self).schema_entries(), e.name@, e)) && (old(
                    self,
                ).components is None ==> final(self).schema_entries() == old(
                    self,
                ).schema_entries()),
                RegistrationOp::Path(e) => final(self).schema_entries() == old(
                    self,
                ).schema_entries() && final(self).path_entries() == insert_keyed(
                    old(self).path_entries(),
                    path_key(e),
                    e,
                ),
            }),
    {
        match op {
            RegistrationOp::Schema(e) => self.register_schema(e),
            RegistrationOp::Path(e) => self.register_path(e),
        }
    }

    /// Apply an ordered list of manual registrations, front first.
    pub fn apply_registrations(&mut self, ops: Vec<RegistrationOp>)
        ensures
            final(self).title == old(self).title,
            final(self).description == old(self).description,
            (final(self).components is Some <==> old(self).components is Some),
            final(self).security_schemes() == old(self).security_schemes(),
            old(self).components is Some ==> final(self).schema_entries() == ops_schemas(
                old(self).schema_entries(),
                ops@,
            ),
            old(self).components is None ==> final(self).schema_entries() == old(
                self,
            ).schema_entries(),
            final(self).path_entries() == ops_paths(old(self).path_entries(), ops@),
    {
        let ghost orig = ops@;
        let mut ops = ops;
        let ghost mut i: int = 0;
        assert(ops@ =~= orig.skip(0));
        assert(orig.take(0) =~= Seq::<RegistrationOp>::empty());
        while ops.len() > 0
            invariant
                0 <= i <= orig.len(),
                ops@ == orig.skip(i),
                self.title == old(self).title,
                self.description == old(self).description,
                (self.components is Some <==> old(self).components is Some),
                self.security_schemes() == old(self).security_schemes(),
                old(self).components is Some ==> self.schema_entries() == ops_schemas(
                    old(self).schema_entries(),
                    orig.take(i),
                ),
                old(self).components is None ==> self.schema_entries() == old(
                    self,
                ).schema_entries(),
                self.path_entries() == ops_paths(old(self).path_entries(), orig.take(i)),
            decreases ops.len(),
        {
            let op = ops.remove(0);
            assert(op == orig[i]);
            self.apply_registration(op);
            proof {
                assert(orig.take(i + 1) =~= orig.take(i).push(orig[i]));
                lemma_ops_schemas_push(old(self).schema_entries(), orig.take(i), orig[i]);
                lemma_ops_paths_push(old(self).path_entries(), orig.take(i), orig[i]);
                assert(ops@ =~= orig.skip(i + 1));
                i = i + 1;
            }
        }
        assert(orig.take(i) =~= orig);
    }
}

/// Assemble the composite document: automatic derivation results are
/// registered first, then the manual registrations in the order supplied;
/// both registries resolve key collisions last-write-wins, so a manual
/// entry silently overrides an automatically derived one sharing its key.
pub fn assemble(
    title: String,
    description: String,
    auto_schemas: Vec<SchemaEntry>,
    auto_paths: Vec<PathEntry>,
    manual: Vec<RegistrationOp>,
) -> (d: CompositeDocument)
    ensures
        d.title == title,
        d.description == description,
        d.components is Some,
        d.security_schemes() == Seq::<SecurityScheme>::empty(),
        d.schema_entries() == ops_schemas(
            insert_all(Seq::<(Seq<char>, SchemaEntry)>::empty(), schema_kv(auto_schemas@)),
            manual@,
        ),
        d.path_entries() == ops_paths(
            insert_all(Seq::<((Seq<char>, HttpMethod), PathEntry)>::empty(), path_kv(auto_paths@)),
            manual@,
        ),
        d.wf(),
{
    let ghost auto_s = schema_kv(auto_schemas@);
    let ghost auto_p = path_kv(auto_paths@);
    let mut d = CompositeDocument::base_document(title, description, auto_schemas, auto_paths);
    d.apply_registrations(manual);
    proof {
        lemma_ops_schemas_unique(
            insert_all(Seq::<(Seq<char>, SchemaEntry)>::empty(), auto_s),
            manual@,
        );
        lemma_ops_paths_unique(
            insert_all(Seq::<((Seq<char>, HttpMethod), PathEntry)>::empty(), auto_p),
            manual@,
        );
    }
    d
}

/// Registering a manual path at a `(path, method)` key that an
/// automatically derived path already occupies leaves exactly one
/// descriptor at that key, equal to the manually supplied one.
pub proof fn lemma_manual_path_wins(
    s: Seq<((Seq<char>, HttpMethod), PathEntry)>,
    e: PathEntry,
)
    requires
        unique_keys(s),
    ensures
        unique_keys(insert_keyed(s, path_key(e), e)),
        lookup_keyed(insert_keyed(s, path_key(e), e), path_key(e)) == Some(e),
        forall|i: int|
            0 <= i < insert_keyed(s, path_key(e), e).len() && insert_keyed(s, path_key(e), e)[i].0
                == path_key(e) ==> insert_keyed(s, path_key(e), e)[i].1 == e,
{
    lemma_insert_exactly_one(s, path_key(e), e);
}

/// The schema set never holds two entries of one name, and registering a
/// name twice leaves one entry equal to the last registration.
pub proof fn lemma_schema_last_write_wins(s: Seq<(Seq<char>, SchemaEntry)>, e: SchemaEntry)
    requires
        unique_keys(s),
    ensures
        unique_keys(insert_keyed(s, e.name@, e)),
        lookup_keyed(insert_keyed(s, e.name@, e), e.name@) == Some(e),
        forall|i: int|
            0 <= i < insert_keyed(s, e.name@, e).len() && insert_keyed(s, e.name@, e)[i].0
                == e.name@ ==> insert_keyed(s, e.name@, e)[i].1 == e,
{
    lemma_insert_exactly_one(s, e.name@, e);
}

/// The manual registrations for the endpoints this process does not serve
/// itself: the crawl payload schemas, the crawl-submission POST and the
/// crawl-result GET with its literal worked example.
pub fn crawl_registrations() -> (ops: Vec<RegistrationOp>)
    ensures
        ops@.len() == 5,
        (ops@[0] matches RegistrationOp::Schema(e) && e.name@ == "ScraperPostBody"@),
        (ops@[1] matches RegistrationOp::Schema(e) && e.name@ == "ScraperPostBodyResponse"@),
        (ops@[2] matches RegistrationOp::Schema(e) && e.name@ == "CrawledResult"@),
        (ops@[3] matches RegistrationOp::Path(p) && p.path@ == "/api/v1/crawl"@ && p.method
            == HttpMethod::Post && p.op.summary@ == "POST url to crawl"@
            && (p.op.request_body_schema_ref matches Some(r) && r@ == "ScraperPostBody"@)
            && p.op.response_schema_ref@ == "ScraperPostBodyResponse"@
            && p.op.response_example is None),
        (ops@[4] matches RegistrationOp::Path(p) && p.path@ == "/api/v1/crawl/{id}"@ && p.method
            == HttpMethod::Get && p.op.summary@ == "GET crawled result"@
            && p.op.request_body_schema_ref is None && p.op.response_schema_ref@
            == "CrawledResult"@ && (p.op.response_example matches Some(ex) && ex.status@
            == "completed"@ && ex.total == 1 && ex.data@.len() == 1 && ex.completed == 1
            && ex.credits_used == 1 && ex.success == true)),
{
    let mut ops: Vec<RegistrationOp> = Vec::new();
    ops.push(
        RegistrationOp::Schema(
            SchemaEntry {
                name: "ScraperPostBody".to_owned(),
                definition: "object: url (string)".to_owned(),
            },
        ),
    );
    ops.push(
        RegistrationOp::Schema(
            SchemaEntry {
                name: "ScraperPostBodyResponse".to_owned(),
                definition: "object: success (boolean), id (string), url (string)".to_owned(),
            },
        ),
    );
    ops.push(
        RegistrationOp::Schema(
            SchemaEntry {
                name: "CrawledResult".to_owned(),
                definition: "object: completed, creditsUsed, data, expiresAt, status, success, total".to_owned(),
            },
        ),
    );
    ops.push(
        RegistrationOp::Path(
            PathEntry {
                path: "/api/v1/crawl".to_owned(),
                method: HttpMethod::Post,
                op: OperationDescriptor {
                    summary: "POST url to crawl".to_owned(),
                    request_body_schema_ref: Some("ScraperPostBody".to_owned()),
                    response_schema_ref: "ScraperPostBodyResponse".to_owned(),
                    response_example: None,
                },
            },
        ),
    );
    ops.push(
        RegistrationOp::Path(
            PathEntry {
                path: "/api/v1/crawl/{id}".to_owned(),
                method: HttpMethod::Get,
                op: OperationDescriptor {
                    summary: "GET crawled result".to_owned(),
                    request_body_schema_ref: None,
                    response_schema_ref: "CrawledResult".to_owned(),
                    response_example: Some(example_scraped_result()),
                },
            },
        ),
    );
    ops
}

} // verus!
