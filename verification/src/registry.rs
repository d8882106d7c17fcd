//! The prefix registry: one mutable, ordered table of prefix strings per
//! carrier, reset to these fixed defaults when a registry is created. The
//! tables are owned by the process or application context and handed to the
//! classifier explicitly, which keeps the fixed consultation order (Globe,
//! Smart, Sun, TNT, Dito) visible and testable.

use vstd::prelude::*;

verus! {

/// The five per-carrier prefix tables. Entry order is preserved for
/// observability; duplicates are permitted and do not change classification.
pub struct Registry {
    pub(crate) globe: Vec<String>,
    pub(crate) smart: Vec<String>,
    pub(crate) sun: Vec<String>,
    pub(crate) tnt: Vec<String>,
    pub(crate) dito: Vec<String>,
}

/// The default Globe prefix table.
pub open spec fn globe_default_prefixes() -> Seq<Seq<char>> {
    seq![
        seq!['0', '8', '1', '7'],
        seq!['0', '9', '0', '4'],
        seq!['0', '9', '0', '5'],
        seq!['0', '9', '0', '6'],
        seq!['0', '9', '1', '5'],
        seq!['0', '9', '1', '6'],
        seq!['0', '9', '1', '7'],
        seq!['0', '9', '2', '6'],
        seq!['0', '9', '2', '7'],
        seq!['0', '9', '3', '5'],
        seq!['0', '9', '3', '6'],
        seq!['0', '9', '3', '7'],
        seq!['0', '9', '4', '5'],
        seq!['0', '9', '5', '4'],
        seq!['0', '9', '5', '5'],
        seq!['0', '9', '5', '6'],
        seq!['0', '9', '6', '5'],
        seq!['0', '9', '6', '6'],
        seq!['0', '9', '6', '7'],
        seq!['0', '9', '7', '5'],
        seq!['0', '9', '7', '6'],
        seq!['0', '9', '7', '7'],
        seq!['0', '9', '7', '8'],
        seq!['0', '9', '7', '9'],
        seq!['0', '9', '9', '5'],
        seq!['0', '9', '9', '6'],
        seq!['0', '9', '9', '7'],
        seq!['0', '9', '1', '7', '3'],
        seq!['0', '9', '1', '7', '5'],
        seq!['0', '9', '1', '7', '6'],
        seq!['0', '9', '1', '7', '8'],
        seq!['0', '9', '2', '5', '3'],
        seq!['0', '9', '2', '5', '5'],
        seq!['0', '9', '2', '5', '6'],
        seq!['0', '9', '2', '5', '7'],
        seq!['0', '9', '2', '5', '8'],
    ]
}

/// The default Smart prefix table.
pub open spec fn smart_default_prefixes() -> Seq<Seq<char>> {
    seq![
        seq!['0', '8', '1', '3'],
        seq!['0', '9', '0', '8'],
        seq!['0', '9', '1', '1'],
        seq!['0', '9', '1', '3'],
        seq!['0', '9', '1', '4'],
        seq!['0', '9', '1', '9'],
        seq!['0', '9', '2', '0'],
        seq!['0', '9', '2', '1'],
        seq!['0', '9', '2', '8'],
        seq!['0', '9', '2', '9'],
        seq!['0', '9', '3', '9'],
        seq!['0', '9', '4', '6'],
        seq!['0', '9', '4', '7'],
        seq!['0', '9', '4', '9'],
        seq!['0', '9', '5', '1'],
        seq!['0', '9', '6', '1'],
        seq!['0', '9', '6', '3'],
        seq!['0', '9', '6', '8'],
        seq!['0', '9', '6', '9'],
        seq!['0', '9', '7', '0'],
        seq!['0', '9', '8', '1'],
        seq!['0', '9', '9', '8'],
        seq!['0', '9', '9', '9'],
        seq!['0', '9', '6', '0'],
    ]
}

/// The default Sun prefix table.
pub open spec fn sun_default_prefixes() -> Seq<Seq<char>> {
    seq![
        seq!['0', '9', '2', '2'],
        seq!['0', '9', '2', '3'],
        seq!['0', '9', '2', '4'],
        seq!['0', '9', '2', '5'],
        seq!['0', '9', '3', '1'],
        seq!['0', '9', '3', '2'],
        seq!['0', '9', '3', '3'],
        seq!['0', '9', '3', '4'],
        seq!['0', '9', '4', '0'],
        seq!['0', '9', '4', '1'],
        seq!['0', '9', '4', '2'],
        seq!['0', '9', '4', '3'],
        seq!['0', '9', '4', '4'],
        seq!['0', '9', '7', '3'],
        seq!['0', '9', '7', '4'],
    ]
}

/// The default TNT prefix table.
pub open spec fn tnt_default_prefixes() -> Seq<Seq<char>> {
    seq![
        seq!['0', '9', '0', '7'],
        seq!['0', '9', '0', '9'],
        seq!['0', '9', '1', '0'],
        seq!['0', '9', '1', '2'],
        seq!['0', '9', '1', '8'],
        seq!['0', '9', '3', '0'],
        seq!['0', '9', '3', '8'],
        seq!['0', '9', '4', '6'],
        seq!['0', '9', '4', '8'],
        seq!['0', '9', '5', '0'],
        seq!['0', '9', '6', '3'],
        seq!['0', '9', '8', '9'],
        seq!['0', '9', '9', '8'],
    ]
}

/// The default Dito prefix table.
pub open spec fn dito_default_prefixes() -> Seq<Seq<char>> {
    seq![
        seq!['0', '8', '9', '5'],
        seq!['0', '8', '9', '6'],
        seq!['0', '8', '9', '7'],
        seq!['0', '8', '9', '8'],
        seq!['0', '9', '9', '1'],
        seq!['0', '9', '9', '2'],
        seq!['0', '9', '9', '3'],
        seq!['0', '9', '9', '4'],
    ]
}

/// Builds the default Globe table.
fn globe_default_table() -> (v: Vec<String>)
    ensures
        v.deep_view() == globe_default_prefixes(),
{
    let mut v: Vec<String> = Vec::new();
    v.push("0817".to_owned());
    v.push("0904".to_owned());
    v.push("0905".to_owned());
    v.push("0906".to_owned());
    v.push("0915".to_owned());
    v.push("0916".to_owned());
    v.push("0917".to_owned());
    v.push("0926".to_owned());
    v.push("0927".to_owned());
    v.push("0935".to_owned());
    v.push("0936".to_owned());
    v.push("0937".to_owned());
    v.push("0945".to_owned());
    v.push("0954".to_owned());
    v.push("0955".to_owned());
    v.push("0956".to_owned());
    v.push("0965".to_owned());
    v.push("0966".to_owned());
    v.push("0967".to_owned());
    v.push("0975".to_owned());
    v.push("0976".to_owned());
    v.push("0977".to_owned());
    v.push("0978".to_owned());
    v.push("0979".to_owned());
    v.push("0995".to_owned());
    v.push("0996".to_owned());
    v.push("0997".to_owned());
    v.push("09173".to_owned());
    v.push("09175".to_owned());
    v.push("09176".to_owned());
    v.push("09178".to_owned());
    v.push("09253".to_owned());
    v.push("09255".to_owned());
    v.push("09256".to_owned());
    v.push("09257".to_owned());
    v.push("09258".to_owned());
    proof {
        reveal_strlit("0817");
        reveal_strlit("0904");
        reveal_strlit("0905");
        reveal_strlit("0906");
        reveal_strlit("0915");
        reveal_strlit("0916");
        reveal_strlit("0917");
        reveal_strlit("09173");
        reveal_strlit("09175");
        reveal_strlit("09176");
        reveal_strlit("09178");
        reveal_strlit("09253");
        reveal_strlit("09255");
        reveal_strlit("09256");
        reveal_strlit("09257");
        reveal_strlit("09258");
        reveal_strlit("0926");
        reveal_strlit("0927");
        reveal_strlit("0935");
        reveal_strlit("0936");
        reveal_strlit("0937");
        reveal_strlit("0945");
        reveal_strlit("0954");
        reveal_strlit("0955");
        reveal_strlit("0956");
        reveal_strlit("0965");
        reveal_strlit("0966");
        reveal_strlit("0967");
        reveal_strlit("0975");
        reveal_strlit("0976");
        reveal_strlit("0977");
        reveal_strlit("0978");
        reveal_strlit("0979");
        reveal_strlit("0995");
        reveal_strlit("0996");
        reveal_strlit("0997");
        assert(v.deep_view() =~~= globe_default_prefixes());
    }
    v
}

/// Builds the default Smart table.
fn smart_default_table() -> (v: Vec<String>)
    ensures
        v.deep_view() == smart_default_prefixes(),
{
    let mut v: Vec<String> = Vec::new();
    v.push("0813".to_owned());
    v.push("0908".to_owned());
    v.push("0911".to_owned());
    v.push("0913".to_owned());
    v.push("0914".to_owned());
    v.push("0919".to_owned());
    v.push("0920".to_owned());
    v.push("0921".to_owned());
    v.push("0928".to_owned());
    v.push("0929".to_owned());
    v.push("0939".to_owned());
    v.push("0946".to_owned());
    v.push("0947".to_owned());
    v.push("0949".to_owned());
    v.push("0951".to_owned());
    v.push("0961".to_owned());
    v.push("0963".to_owned());
    v.push("0968".to_owned());
    v.push("0969".to_owned());
    v.push("0970".to_owned());
    v.push("0981".to_owned());
    v.push("0998".to_owned());
    v.push("0999".to_owned());
    v.push("0960".to_owned());
    proof {
        reveal_strlit("0813");
        reveal_strlit("0908");
        reveal_strlit("0911");
        reveal_strlit("0913");
        reveal_strlit("0914");
        reveal_strlit("0919");
        reveal_strlit("0920");
        reveal_strlit("0921");
        reveal_strlit("0928");
        reveal_strlit("0929");
        reveal_strlit("0939");
        reveal_strlit("0946");
        reveal_strlit("0947");
        reveal_strlit("0949");
        reveal_strlit("0951");
        reveal_strlit("0960");
        reveal_strlit("0961");
        reveal_strlit("0963");
        reveal_strlit("0968");
        reveal_strlit("0969");
        reveal_strlit("0970");
        reveal_strlit("0981");
        reveal_strlit("0998");
        reveal_strlit("0999");
        assert(v.deep_view() =~~= smart_default_prefixes());
    }
    v
}

/// Builds the default Sun table.
fn sun_default_table() -> (v: Vec<String>)
    ensures
        v.deep_view() == sun_default_prefixes(),
{
    let mut v: Vec<String> = Vec::new();
    v.push("0922".to_owned());
    v.push("0923".to_owned());
    v.push("0924".to_owned());
    v.push("0925".to_owned());
    v.push("0931".to_owned());
    v.push("0932".to_owned());
    v.push("0933".to_owned());
    v.push("0934".to_owned());
    v.push("0940".to_owned());
    v.push("0941".to_owned());
    v.push("0942".to_owned());
    v.push("0943".to_owned());
    v.push("0944".to_owned());
    v.push("0973".to_owned());
    v.push("0974".to_owned());
    proof {
        reveal_strlit("0922");
        reveal_strlit("0923");
        reveal_strlit("0924");
        reveal_strlit("0925");
        reveal_strlit("0931");
        reveal_strlit("0932");
        reveal_strlit("0933");
        reveal_strlit("0934");
        reveal_strlit("0940");
        reveal_strlit("0941");
        reveal_strlit("0942");
        reveal_strlit("0943");
        reveal_strlit("0944");
        reveal_strlit("0973");
        reveal_strlit("0974");
        assert(v.deep_view() =~~= sun_default_prefixes());
    }
    v
}

/// Builds the default TNT table.
fn tnt_default_table() -> (v: Vec<String>)
    ensures
        v.deep_view() == tnt_default_prefixes(),
{
    let mut v: Vec<String> = Vec::new();
    v.push("0907".to_owned());
    v.push("0909".to_owned());
    v.push("0910".to_owned());
    v.push("0912".to_owned());
    v.push("0918".to_owned());
    v.push("0930".to_owned());
    v.push("0938".to_owned());
    v.push("0946".to_owned());
    v.push("0948".to_owned());
    v.push("0950".to_owned());
    v.push("0963".to_owned());
    v.push("0989".to_owned());
    v.push("0998".to_owned());
    proof {
        reveal_strlit("0907");
        reveal_strlit("0909");
        reveal_strlit("0910");
        reveal_strlit("0912");
        reveal_strlit("0918");
        reveal_strlit("0930");
        reveal_strlit("0938");
        reveal_strlit("0946");
        reveal_strlit("0948");
        reveal_strlit("0950");
        reveal_strlit("0963");
        reveal_strlit("0989");
        reveal_strlit("0998");
        assert(v.deep_view() =~~= tnt_default_prefixes());
    }
    v
}

/// Builds the default Dito table.
fn dito_default_table() -> (v: Vec<String>)
    ensures
        v.deep_view() == dito_default_prefixes(),
{
    let mut v: Vec<String> = Vec::new();
    v.push("0895".to_owned());
    v.push("0896".to_owned());
    v.push("0897".to_owned());
    v.push("0898".to_owned());
    v.push("0991".to_owned());
    v.push("0992".to_owned());
    v.push("0993".to_owned());
    v.push("0994".to_owned());
    proof {
        reveal_strlit("0895");
        reveal_strlit("0896");
        reveal_strlit("0897");
        reveal_strlit("0898");
        reveal_strlit("0991");
        reveal_strlit("0992");
        reveal_strlit("0993");
        reveal_strlit("0994");
        assert(v.deep_view() =~~= dito_default_prefixes());
    }
    v
}

impl Registry {
    /// The Globe table's current contents, in insertion order.
    pub closed spec fn globe_view(self) -> Seq<Seq<char>> {
        self.globe.deep_view()
    }

    /// The Smart table's current contents, in insertion order.
    pub closed spec fn smart_view(self) -> Seq<Seq<char>> {
        self.smart.deep_view()
    }

    /// The Sun table's current contents, in insertion order.
    pub closed spec fn sun_view(self) -> Seq<Seq<char>> {
        self.sun.deep_view()
    }

    /// The TNT table's current contents, in insertion order.
    pub closed spec fn tnt_view(self) -> Seq<Seq<char>> {
        self.tnt.deep_view()
    }

    /// The Dito table's current contents, in insertion order.
    pub closed spec fn dito_view(self) -> Seq<Seq<char>> {
        self.dito.deep_view()
    }

    /// A registry holding the five default tables.
    pub fn new() -> (r: Registry)
        ensures
            r.globe_view() == globe_default_prefixes(),
            r.smart_view() == smart_default_prefixes(),
            r.sun_view() == sun_default_prefixes(),
            r.tnt_view() == tnt_default_prefixes(),
            r.dito_view() == dito_default_prefixes(),
    {
        Registry {
            globe: globe_default_table(),
            smart: smart_default_table(),
            sun: sun_default_table(),
            tnt: tnt_default_table(),
            dito: dito_default_table(),
        }
    }

    /// A registry assembled from externally held tables, one per carrier:
    /// for callers that keep the tables elsewhere (say, behind locks) and
    /// hand the classifier a consistent snapshot.
    pub fn from_tables(
        globe: Vec<String>,
        smart: Vec<String>,
        sun: Vec<String>,
        tnt: Vec<String>,
        dito: Vec<String>,
    ) -> (r: Registry)
        ensures
            r.globe_view() == globe.deep_view(),
            r.smart_view() == smart.deep_view(),
            r.sun_view() == sun.deep_view(),
            r.tnt_view() == tnt.deep_view(),
            r.dito_view() == dito.deep_view(),
    {
        Registry { globe, smart, sun, tnt, dito }
    }

    /// A read-only borrow of the Globe table.
    pub fn globe_prefixes(&self) -> (r: &Vec<String>)
        ensures
            r.deep_view() == self.globe_view(),
    {
        &self.globe
    }

    /// A read-only borrow of the Smart table.
    pub fn smart_prefixes(&self) -> (r: &Vec<String>)
        ensures
            r.deep_view() == self.smart_view(),
    {
        &self.smart
    }

    /// A read-only borrow of the Sun table.
    pub fn sun_prefixes(&self) -> (r: &Vec<String>)
        ensures
            r.deep_view() == self.sun_view(),
    {
        &self.sun
    }

    /// A read-only borrow of the TNT table.
    pub fn tnt_prefixes(&self) -> (r: &Vec<String>)
        ensures
            r.deep_view() == self.tnt_view(),
    {
        &self.tnt
    }

    /// A read-only borrow of the Dito table.
    pub fn dito_prefixes(&self) -> (r: &Vec<String>)
        ensures
            r.deep_view() == self.dito_view(),
    {
        &self.dito
    }
}


/// Appends clones of the given entries to the end of a table.
fn extend_table(table: &mut Vec<String>, prefixes: &Vec<String>)
    ensures
        final(table).deep_view() == old(table).deep_view() + prefixes.deep_view(),
{
    let ghost dv = prefixes.deep_view();
    let n = prefixes.len();
    assert(old(table).deep_view() + dv.take(0) =~= old(table).deep_view());
    let mut i: usize = 0;
    while i < n
        invariant
            n == prefixes.len(),
            dv == prefixes.deep_view(),
            i <= n,
            table.deep_view() == old(table).deep_view() + dv.take(i as int),
        decreases n - i,
    {
        let ghost before = table.deep_view();
        table.push(prefixes[i].clone());
        proof {
            assert(table.deep_view() =~= before.push(dv[i as int]));
            assert(dv.take(i + 1) =~= dv.take(i as int).push(dv[i as int]));
            assert(table.deep_view() =~= old(table).deep_view() + dv.take(i + 1));
        }
        i = i + 1;
    }
    proof {
        assert(dv.take(n as int) =~= dv);
    }
}

impl Registry {
    /// Extends the Globe table with the given prefixes, at the end, in order.
    pub(crate) fn extend_globe(&mut self, prefixes: &Vec<String>)
        ensures
            final(self).globe_view() == old(self).globe_view() + prefixes.deep_view(),
            final(self).smart_view() == old(self).smart_view(),
            final(self).sun_view() == old(self).sun_view(),
            final(self).tnt_view() == old(self).tnt_view(),
            final(self).dito_view() == old(self).dito_view(),
    {
        extend_table(&mut self.globe, prefixes);
    }

    /// Extends the Smart table with the given prefixes, at the end, in order.
    pub(crate) fn extend_smart(&mut self, prefixes: &Vec<String>)
        ensures
            final(self).smart_view() == old(self).smart_view() + prefixes.deep_view(),
            final(self).globe_view() == old(self).globe_view(),
            final(self).sun_view() == old(self).sun_view(),
            final(self).tnt_view() == old(self).tnt_view(),
            final(self).dito_view() == old(self).dito_view(),
    {
        extend_table(&mut self.smart, prefixes);
    }

    /// Extends the Sun table with the given prefixes, at the end, in order.
    pub(crate) fn extend_sun(&mut self, prefixes: &Vec<String>)
        ensures
            final(self).sun_view() == old(self).sun_view() + prefixes.deep_view(),
            final(self).globe_view() == old(self).globe_view(),
            final(self).smart_view() == old(self).smart_view(),
            final(self).tnt_view() == old(self).tnt_view(),
            final(self).dito_view() == old(self).dito_view(),
    {
        extend_table(&mut self.sun, prefixes);
    }

    /// Extends the TNT table with the given prefixes, at the end, in order.
    pub(crate) fn extend_tnt(&mut self, prefixes: &Vec<String>)
        ensures
            final(self).tnt_view() == old(self).tnt_view() + prefixes.deep_view(),
            final(self).globe_view() == old(self).globe_view(),
            final(self).smart_view() == old(self).smart_view(),
            final(self).sun_view() == old(self).sun_view(),
            final(self).dito_view() == old(self).dito_view(),
    {
        extend_table(&mut self.tnt, prefixes);
    }

    /// Extends the Dito table with the given prefixes, at the end, in order.
    pub(crate) fn extend_dito(&mut self, prefixes: &Vec<String>)
        ensures
            final(self).dito_view() == old(self).dito_view() + prefixes.deep_view(),
            final(self).globe_view() == old(self).globe_view(),
            final(self).smart_view() == old(self).smart_view(),
            final(self).sun_view() == old(self).sun_view(),
            final(self).tnt_view() == old(self).tnt_view(),
    {
        extend_table(&mut self.dito, prefixes);
    }

    /// Clears the Globe table.
    pub(crate) fn clear_globe(&mut self)
        ensures
            final(self).globe_view() == Seq::<Seq<char>>::empty(),
            final(self).smart_view() == old(self).smart_view(),
            final(self).sun_view() == old(self).sun_view(),
            final(self).tnt_view() == old(self).tnt_view(),
            final(self).dito_view() == old(self).dito_view(),
    {
        self.globe = Vec::new();
        proof {
            assert(self.globe_view() =~= Seq::<Seq<char>>::empty());
        }
    }

    /// Clears the Smart table.
    pub(crate) fn clear_smart(&mut self)
        ensures
            final(self).smart_view() == Seq::<Seq<char>>::empty(),
            final(self).globe_view() == old(self).globe_view(),
            final(self).sun_view() == old(self).sun_view(),
            final(self).tnt_view() == old(self).tnt_view(),
            final(self).dito_view() == old(self).dito_view(),
    {
        self.smart = Vec::new();
        proof {
            assert(self.smart_view() =~= Seq::<Seq<char>>::empty());
        }
    }

    /// Clears the Sun table.
    pub(crate) fn clear_sun(&mut self)
        ensures
            final(self).sun_view() == Seq::<Seq<char>>::empty(),
            final(self).globe_view() == old(self).globe_view(),
            final(self).smart_view() == old(self).smart_view(),
            final(self).tnt_view() == old(self).tnt_view(),
            final(self).dito_view() == old(self).dito_view(),
    {
        self.sun = Vec::new();
        proof {
            assert(self.sun_view() =~= Seq::<Seq<char>>::empty());
        }
    }

    /// Clears the TNT table.
    pub(crate) fn clear_tnt(&mut self)
        ensures
            final(self).tnt_view() == Seq::<Seq<char>>::empty(),
            final(self).globe_view() == old(self).globe_view(),
            final(self).smart_view() == old(self).smart_view(),
            final(self).sun_view() == old(self).sun_view(),
            final(self).dito_view() == old(self).dito_view(),
    {
        self.tnt = Vec::new();
        proof {
            assert(self.tnt_view() =~= Seq::<Seq<char>>::empty());
        }
    }

    /// Clears the Dito table.
    pub(crate) fn clear_dito(&mut self)
        ensures
            final(self).dito_view() == Seq::<Seq<char>>::empty(),
            final(self).globe_view() == old(self).globe_view(),
            final(self).smart_view() == old(self).smart_view(),
            final(self).sun_view() == old(self).sun_view(),
            final(self).tnt_view() == old(self).tnt_view(),
    {
        self.dito = Vec::new();
        proof {
            assert(self.dito_view() =~= Seq::<Seq<char>>::empty());
        }
    }

    /// Appends one prefix to the end of the Globe table.
    pub(crate) fn push_globe(&mut self, prefix: String)
        ensures
            final(self).globe_view() == old(self).globe_view().push(prefix@),
            final(self).smart_view() == old(self).smart_view(),
            final(self).sun_view() == old(self).sun_view(),
            final(self).tnt_view() == old(self).tnt_view(),
            final(self).dito_view() == old(self).dito_view(),
    {
        self.globe.push(prefix);
        proof {
            assert(self.globe_view() =~= old(self).globe_view().push(prefix@));
        }
    }

    /// Appends one prefix to the end of the Smart table.
    pub(crate) fn push_smart(&mut self, prefix: String)
        ensures
            final(self).smart_view() == old(self).smart_view().push(prefix@),
            final(self).globe_view() == old(self).globe_view(),
            final(self).sun_view() == old(self).sun_view(),
            final(self).tnt_view() == old(self).tnt_view(),
            final(self).dito_view() == old(self).dito_view(),
    {
        self.smart.push(prefix);
        proof {
            assert(self.smart_view() =~= old(self).smart_view().push(prefix@));
        }
    }

    /// Appends one prefix to the end of the Sun table.
    pub(crate) fn push_sun(&mut self, prefix: String)
        ensures
            final(self).sun_view() == old(self).sun_view().push(prefix@),
            final(self).globe_view() == old(self).globe_view(),
            final(self).smart_view() == old(self).smart_view(),
            final(self).tnt_view() == old(self).tnt_view(),
            final(self).dito_view() == old(self).dito_view(),
    {
        self.sun.push(prefix);
        proof {
            assert(self.sun_view() =~= old(self).sun_view().push(prefix@));
        }
    }

    /// Appends one prefix to the end of the TNT table.
    pub(crate) fn push_tnt(&mut self, prefix: String)
        ensures
            final(self).tnt_view() == old(self).tnt_view().push(prefix@),
            final(self).globe_view() == old(self).globe_view(),
            final(self).smart_view() == old(self).smart_view(),
            final(self).sun_view() == old(self).sun_view(),
            final(self).dito_view() == old(self).dito_view(),
    {
        self.tnt.push(prefix);
        proof {
            assert(self.tnt_view() =~= old(self).tnt_view().push(prefix@));
        }
    }

    /// Appends one prefix to the end of the Dito table.
    pub(crate) fn push_dito(&mut self, prefix: String)
        ensures
            final(self).dito_view() == old(self).dito_view().push(prefix@),
            final(self).globe_view() == old(self).globe_view(),
            final(self).smart_view() == old(self).smart_view(),
            final(self).sun_view() == old(self).sun_view(),
            final(self).tnt_view() == old(self).tnt_view(),
    {
        self.dito.push(prefix);
        proof {
            assert(self.dito_view() =~= old(self).dito_view().push(prefix@));
        }
    }

}

} // verus!
