use vstd::prelude::*;

verus! {

/// The model of one query parameter: its key and its value.
pub type PairModel = (Seq<char>, Seq<char>);

/// The model of a list of query parameters.
pub open spec fn pairs_view(v: Vec<(String, String)>) -> Seq<PairModel> {
    Seq::new(v@.len(), |i: int| (v@[i].0@, v@[i].1@))
}

/// What one optional field contributes to the outgoing query: its pair
/// when the value is non-empty, nothing otherwise.
pub open spec fn opt_field(key: Seq<char>, value: Seq<char>) -> Seq<PairModel> {
    if value.len() > 0 {
        seq![(key, value)]
    } else {
        Seq::<PairModel>::empty()
    }
}

/// The outgoing query of a list of optional fields: each field's
/// contribution, in field order.
pub open spec fn field_query(fields: Seq<PairModel>) -> Seq<PairModel>
    decreases fields.len(),
{
    if fields.len() == 0 {
        Seq::<PairModel>::empty()
    } else {
        field_query(fields.drop_last()) + opt_field(fields.last().0, fields.last().1)
    }
}

/// How many pairs of the list carry this key.
pub open spec fn key_occurrences(pairs: Seq<PairModel>, key: Seq<char>) -> nat
    decreases pairs.len(),
{
    if pairs.len() == 0 {
        0
    } else {
        key_occurrences(pairs.drop_last(), key) + (if pairs.last().0 == key {
            1nat
        } else {
            0nat
        })
    }
}

proof fn lemma_key_occurrences_concat(a: Seq<PairModel>, b: Seq<PairModel>, key: Seq<char>)
    ensures
        key_occurrences(a + b, key) == key_occurrences(a, key) + key_occurrences(b, key),
    decreases b.len(),
{
    if b.len() == 0 {
        assert(a + b =~= a);
        assert(key_occurrences(b, key) == 0);
    } else {
        assert((a + b).drop_last() =~= a + b.drop_last());
        assert((a + b).last() == b.last());
        lemma_key_occurrences_concat(a, b.drop_last(), key);
    }
}

proof fn lemma_key_occurrences_opt_field(key: Seq<char>, value: Seq<char>, probe: Seq<char>)
    ensures
        key_occurrences(opt_field(key, value), probe) == if key == probe && value.len() > 0 {
            1nat
        } else {
            0nat
        },
{
    reveal_with_fuel(key_occurrences, 3);
    if value.len() > 0 {
        assert(opt_field(key, value).drop_last() =~= Seq::<PairModel>::empty());
    }
}

/// Law: a field whose value is empty is omitted from the outgoing query —
/// no pair of the query carries its key — as long as the operation's
/// field keys are pairwise distinct.
pub proof fn lemma_empty_field_omitted(fields: Seq<PairModel>, i: int)
    requires
        0 <= i < fields.len(),
        fields[i].1.len() == 0,
        forall|j: int, k: int|
            0 <= j < k < fields.len() ==> (#[trigger] fields[j]).0 != (#[trigger] fields[k]).0,
    ensures
        key_occurrences(field_query(fields), fields[i].0) == 0,
    decreases fields.len(),
{
    let key = fields[i].0;
    let last = fields.last();
    lemma_key_occurrences_concat(
        field_query(fields.drop_last()),
        opt_field(last.0, last.1),
        key,
    );
    lemma_key_occurrences_opt_field(last.0, last.1, key);
    if i == fields.len() - 1 {
        lemma_absent_key(fields.drop_last(), key);
    } else {
        lemma_empty_field_omitted(fields.drop_last(), i);
    }
}

/// No pair of the outgoing query carries a key that no field has.
proof fn lemma_absent_key(fields: Seq<PairModel>, key: Seq<char>)
    requires
        forall|j: int| 0 <= j < fields.len() ==> (#[trigger] fields[j]).0 != key,
    ensures
        key_occurrences(field_query(fields), key) == 0,
    decreases fields.len(),
{
    if fields.len() > 0 {
        let last = fields.last();
        lemma_key_occurrences_concat(
            field_query(fields.drop_last()),
            opt_field(last.0, last.1),
            key,
        );
        lemma_key_occurrences_opt_field(last.0, last.1, key);
        lemma_absent_key(fields.drop_last(), key);
    }
}

/// Law: a field whose value is non-empty appears in the outgoing query
/// exactly once, with its key and its original value, as long as the
/// operation's field keys are pairwise distinct.
pub proof fn lemma_nonempty_field_once(fields: Seq<PairModel>, i: int)
    requires
        0 <= i < fields.len(),
        fields[i].1.len() > 0,
        forall|j: int, k: int|
            0 <= j < k < fields.len() ==> (#[trigger] fields[j]).0 != (#[trigger] fields[k]).0,
    ensures
        key_occurrences(field_query(fields), fields[i].0) == 1,
        field_query(fields).contains(fields[i]),
    decreases fields.len(),
{
    let key = fields[i].0;
    let last = fields.last();
    lemma_key_occurrences_concat(
        field_query(fields.drop_last()),
        opt_field(last.0, last.1),
        key,
    );
    lemma_key_occurrences_opt_field(last.0, last.1, key);
    if i == fields.len() - 1 {
        lemma_absent_key(fields.drop_last(), key);
        assert(opt_field(last.0, last.1) =~= seq![fields[i]]);
        assert(field_query(fields).last() == fields[i]);
        assert(field_query(fields).contains(fields[i]));
    } else {
        lemma_nonempty_field_once(fields.drop_last(), i);
        let pairs = field_query(fields.drop_last());
        let j = choose|j: int| 0 <= j < pairs.len() && pairs[j] == fields[i];
        assert(field_query(fields)[j] == fields[i]);
    }
}

/// Builds the outgoing query of a list of optional fields, dropping every
/// field whose value is empty.
pub fn build_query(fields: Vec<(String, String)>) -> (r: Vec<(String, String)>)
    ensures
        pairs_view(r) == field_query(pairs_view(fields)),
{
    let mut r: Vec<(String, String)> = Vec::new();
    let mut i: usize = 0;
    let ghost all = pairs_view(fields);
    while i < fields.len()
        invariant
            i <= fields.len(),
            all == pairs_view(fields),
            pairs_view(r) =~= field_query(all.take(i as int)),
        decreases fields.len() - i,
    {
        proof {
            assert(all.take(i + 1 as int).drop_last() =~= all.take(i as int));
            assert(all.take(i + 1 as int).last() == all[i as int]);
        }
        if !fields[i].1.as_str().is_empty() {
            let key = fields[i].0.clone();
            let value = fields[i].1.clone();
            r.push((key, value));
            proof {
                assert(pairs_view(r) =~= field_query(all.take(i + 1 as int)));
            }
        } else {
            proof {
                assert(pairs_view(r) =~= field_query(all.take(i + 1 as int)));
            }
        }
        i = i + 1;
    }
    proof {
        assert(all.take(fields@.len() as int) =~= all);
    }
    r
}


/// Parameters of the search operation. The search text is not an
/// optional filter: it is sent even when empty.
pub struct SearchParams {
    pub q: String,
}

impl SearchParams {
    /// The outgoing query of this operation.
    pub open spec fn spec_query(self) -> Seq<PairModel> {
        seq![("q"@, self.q@)]
    }

    pub fn query_pairs(&self) -> (r: Vec<(String, String)>)
        ensures
            pairs_view(r) == self.spec_query(),
    {
        let mut r: Vec<(String, String)> = Vec::new();
        r.push((String::from_str("q"), self.q.clone()));
        proof {
            assert(pairs_view(r) =~= self.spec_query());
        }
        r
    }
}

impl Default for SearchParams {
    fn default() -> (r: Self)
        ensures
            r.q@ == Seq::<char>::empty(),
    {
        SearchParams { q: String::new() }
    }
}

/// Parameters of one operation: each field an optional query filter,
/// omitted from the outgoing query when empty.
pub struct GetTransactionsParams {
    pub filter: String,
    pub typ: String,
    pub method: String,
}

impl GetTransactionsParams {
    /// The operation's optional query fields, keyed as the wire protocol
    /// spells them, in serialization order.
    pub open spec fn spec_fields(self) -> Seq<PairModel> {
        seq![("filter"@, self.filter@), ("type"@, self.typ@), ("method"@, self.method@)]
    }

    /// The outgoing query of this operation: the non-empty fields, in order.
    pub open spec fn spec_query(self) -> Seq<PairModel> {
        field_query(self.spec_fields())
    }

    pub fn query_pairs(&self) -> (r: Vec<(String, String)>)
        ensures
            pairs_view(r) == self.spec_query(),
    {
        let mut fields: Vec<(String, String)> = Vec::new();
        fields.push((String::from_str("filter"), self.filter.clone()));
        fields.push((String::from_str("type"), self.typ.clone()));
        fields.push((String::from_str("method"), self.method.clone()));
        proof {
            assert(pairs_view(fields) =~= self.spec_fields());
        }
        build_query(fields)
    }
}

impl Default for GetTransactionsParams {
    fn default() -> (r: Self)
        ensures
            r.filter@ == Seq::<char>::empty(),
            r.typ@ == Seq::<char>::empty(),
            r.method@ == Seq::<char>::empty(),
    {
        GetTransactionsParams {
            filter: String::new(),
            typ: String::new(),
            method: String::new(),
        }
    }
}

/// Parameters of one operation: each field an optional query filter,
/// omitted from the outgoing query when empty.
pub struct GetBlocksParams {
    pub typ: String,
}

impl GetBlocksParams {
    /// The operation's optional query fields, keyed as the wire protocol
    /// spells them, in serialization order.
    pub open spec fn spec_fields(self) -> Seq<PairModel> {
        seq![("type"@, self.typ@)]
    }

    /// The outgoing query of this operation: the non-empty fields, in order.
    pub open spec fn spec_query(self) -> Seq<PairModel> {
        field_query(self.spec_fields())
    }

    pub fn query_pairs(&self) -> (r: Vec<(String, String)>)
        ensures
            pairs_view(r) == self.spec_query(),
    {
        let mut fields: Vec<(String, String)> = Vec::new();
        fields.push((String::from_str("type"), self.typ.clone()));
        proof {
            assert(pairs_view(fields) =~= self.spec_fields());
        }
        build_query(fields)
    }
}

impl Default for GetBlocksParams {
    fn default() -> (r: Self)
        ensures
            r.typ@ == Seq::<char>::empty(),
    {
        GetBlocksParams {
            typ: String::new(),
        }
    }
}

/// Parameters of one operation: each field an optional query filter,
/// omitted from the outgoing query when empty.
pub struct GetTransactionTokenTransfersParams {
    pub typ: String,
}

impl GetTransactionTokenTransfersParams {
    /// The operation's optional query fields, keyed as the wire protocol
    /// spells them, in serialization order.
    pub open spec fn spec_fields(self) -> Seq<PairModel> {
        seq![("type"@, self.typ@)]
    }

    /// The outgoing query of this operation: the non-empty fields, in order.
    pub open spec fn spec_query(self) -> Seq<PairModel> {
        field_query(self.spec_fields())
    }

    pub fn query_pairs(&self) -> (r: Vec<(String, String)>)
        ensures
            pairs_view(r) == self.spec_query(),
    {
        let mut fields: Vec<(String, String)> = Vec::new();
        fields.push((String::from_str("type"), self.typ.clone()));
        proof {
            assert(pairs_view(fields) =~= self.spec_fields());
        }
        build_query(fields)
    }
}

impl Default for GetTransactionTokenTransfersParams {
    fn default() -> (r: Self)
        ensures
            r.typ@ == Seq::<char>::empty(),
    {
        GetTransactionTokenTransfersParams {
            typ: String::new(),
        }
    }
}

/// Parameters of one operation: each field an optional query filter,
/// omitted from the outgoing query when empty.
pub struct GetAddressTransactionsParams {
    pub filter: String,
}

impl GetAddressTransactionsParams {
    /// The operation's optional query fields, keyed as the wire protocol
    /// spells them, in serialization order.
    pub open spec fn spec_fields(self) -> Seq<PairModel> {
        seq![("filter"@, self.filter@)]
    }

    /// The outgoing query of this operation: the non-empty fields, in order.
    pub open spec fn spec_query(self) -> Seq<PairModel> {
        field_query(self.spec_fields())
    }

    pub fn query_pairs(&self) -> (r: Vec<(String, String)>)
        ensures
            pairs_view(r) == self.spec_query(),
    {
        let mut fields: Vec<(String, String)> = Vec::new();
        fields.push((String::from_str("filter"), self.filter.clone()));
        proof {
            assert(pairs_view(fields) =~= self.spec_fields());
        }
        build_query(fields)
    }
}

impl Default for GetAddressTransactionsParams {
    fn default() -> (r: Self)
        ensures
            r.filter@ == Seq::<char>::empty(),
    {
        GetAddressTransactionsParams {
            filter: String::new(),
        }
    }
}

/// Parameters of one operation: each field an optional query filter,
/// omitted from the outgoing query when empty.
pub struct GetAddressTokenTransfersParams {
    pub typ: String,
    pub filter: String,
    pub token: String,
}

impl GetAddressTokenTransfersParams {
    /// The operation's optional query fields, keyed as the wire protocol
    /// spells them, in serialization order.
    pub open spec fn spec_fields(self) -> Seq<PairModel> {
        seq![("type"@, self.typ@), ("filter"@, self.filter@), ("token"@, self.token@)]
    }

    /// The outgoing query of this operation: the non-empty fields, in order.
    pub open spec fn spec_query(self) -> Seq<PairModel> {
        field_query(self.spec_fields())
    }

    pub fn query_pairs(&self) -> (r: Vec<(String, String)>)
        ensures
            pairs_view(r) == self.spec_query(),
    {
        let mut fields: Vec<(String, String)> = Vec::new();
        fields.push((String::from_str("type"), self.typ.clone()));
        fields.push((String::from_str("filter"), self.filter.clone()));
        fields.push((String::from_str("token"), self.token.clone()));
        proof {
            assert(pairs_view(fields) =~= self.spec_fields());
        }
        build_query(fields)
    }
}

impl Default for GetAddressTokenTransfersParams {
    fn default() -> (r: Self)
        ensures
            r.typ@ == Seq::<char>::empty(),
            r.filter@ == Seq::<char>::empty(),
            r.token@ == Seq::<char>::empty(),
    {
        GetAddressTokenTransfersParams {
            typ: String::new(),
            filter: String::new(),
            token: String::new(),
        }
    }
}

/// Parameters of one operation: each field an optional query filter,
/// omitted from the outgoing query when empty.
pub struct GetAddressInternalTransactionsParams {
    pub filter: String,
}

impl GetAddressInternalTransactionsParams {
    /// The operation's optional query fields, keyed as the wire protocol
    /// spells them, in serialization order.
    pub open spec fn spec_fields(self) -> Seq<PairModel> {
        seq![("filter"@, self.filter@)]
    }

    /// The outgoing query of this operation: the non-empty fields, in order.
    pub open spec fn spec_query(self) -> Seq<PairModel> {
        field_query(self.spec_fields())
    }

    pub fn query_pairs(&self) -> (r: Vec<(String, String)>)
        ensures
            pairs_view(r) == self.spec_query(),
    {
        let mut fields: Vec<(String, String)> = Vec::new();
        fields.push((String::from_str("filter"), self.filter.clone()));
        proof {
            assert(pairs_view(fields) =~= self.spec_fields());
        }
        build_query(fields)
    }
}

impl Default for GetAddressInternalTransactionsParams {
    fn default() -> (r: Self)
        ensures
            r.filter@ == Seq::<char>::empty(),
    {
        GetAddressInternalTransactionsParams {
            filter: String::new(),
        }
    }
}

/// Parameters of one operation: each field an optional query filter,
/// omitted from the outgoing query when empty.
pub struct GetAddressTokensParams {
    pub typ: String,
}

impl GetAddressTokensParams {
    /// The operation's optional query fields, keyed as the wire protocol
    /// spells them, in serialization order.
    pub open spec fn spec_fields(self) -> Seq<PairModel> {
        seq![("type"@, self.typ@)]
    }

    /// The outgoing query of this operation: the non-empty fields, in order.
    pub open spec fn spec_query(self) -> Seq<PairModel> {
        field_query(self.spec_fields())
    }

    pub fn query_pairs(&self) -> (r: Vec<(String, String)>)
        ensures
            pairs_view(r) == self.spec_query(),
    {
        let mut fields: Vec<(String, String)> = Vec::new();
        fields.push((String::from_str("type"), self.typ.clone()));
        proof {
            assert(pairs_view(fields) =~= self.spec_fields());
        }
        build_query(fields)
    }
}

impl Default for GetAddressTokensParams {
    fn default() -> (r: Self)
        ensures
            r.typ@ == Seq::<char>::empty(),
    {
        GetAddressTokensParams {
            typ: String::new(),
        }
    }
}

/// Parameters of one operation: each field an optional query filter,
/// omitted from the outgoing query when empty.
pub struct GetAddressNftsParams {
    pub typ: String,
}

impl GetAddressNftsParams {
    /// The operation's optional query fields, keyed as the wire protocol
    /// spells them, in serialization order.
    pub open spec fn spec_fields(self) -> Seq<PairModel> {
        seq![("type"@, self.typ@)]
    }

    /// The outgoing query of this operation: the non-empty fields, in order.
    pub open spec fn spec_query(self) -> Seq<PairModel> {
        field_query(self.spec_fields())
    }

    pub fn query_pairs(&self) -> (r: Vec<(String, String)>)
        ensures
            pairs_view(r) == self.spec_query(),
    {
        let mut fields: Vec<(String, String)> = Vec::new();
        fields.push((String::from_str("type"), self.typ.clone()));
        proof {
            assert(pairs_view(fields) =~= self.spec_fields());
        }
        build_query(fields)
    }
}

impl Default for GetAddressNftsParams {
    fn default() -> (r: Self)
        ensures
            r.typ@ == Seq::<char>::empty(),
    {
        GetAddressNftsParams {
            typ: String::new(),
        }
    }
}

/// Parameters of one operation: each field an optional query filter,
/// omitted from the outgoing query when empty.
pub struct GetTokensParams {
    pub q: String,
    pub typ: String,
}

impl GetTokensParams {
    /// The operation's optional query fields, keyed as the wire protocol
    /// spells them, in serialization order.
    pub open spec fn spec_fields(self) -> Seq<PairModel> {
        seq![("q"@, self.q@), ("type"@, self.typ@)]
    }

    /// The outgoing query of this operation: the non-empty fields, in order.
    pub open spec fn spec_query(self) -> Seq<PairModel> {
        field_query(self.spec_fields())
    }

    pub fn query_pairs(&self) -> (r: Vec<(String, String)>)
        ensures
            pairs_view(r) == self.spec_query(),
    {
        let mut fields: Vec<(String, String)> = Vec::new();
        fields.push((String::from_str("q"), self.q.clone()));
        fields.push((String::from_str("type"), self.typ.clone()));
        proof {
            assert(pairs_view(fields) =~= self.spec_fields());
        }
        build_query(fields)
    }
}

impl Default for GetTokensParams {
    fn default() -> (r: Self)
        ensures
            r.q@ == Seq::<char>::empty(),
            r.typ@ == Seq::<char>::empty(),
    {
        GetTokensParams {
            q: String::new(),
            typ: String::new(),
        }
    }
}

} // verus!
