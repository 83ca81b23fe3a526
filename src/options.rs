use vstd::prelude::*;

verus! {

/// Which option a lookup asks for.
#[derive(Clone, Copy, Debug, PartialEq, Eq, Structural)]
pub enum OptDiscriminants {
    Model,
    ApiKey,
    AzureDeployment,
    AzureBaseUrl,
    AzureApiVersion,
    Stream,
}

/// One configuration value, tagged by the option it sets.
#[derive(Debug)]
pub enum Opt {
    Model(String),
    ApiKey(String),
    AzureDeployment(String),
    AzureBaseUrl(String),
    AzureApiVersion(String),
    Stream(bool),
}

/// The option that a value sets.
pub open spec fn discriminant_of(o: Opt) -> OptDiscriminants {
    match o {
        Opt::Model(_) => OptDiscriminants::Model,
        Opt::ApiKey(_) => OptDiscriminants::ApiKey,
        Opt::AzureDeployment(_) => OptDiscriminants::AzureDeployment,
        Opt::AzureBaseUrl(_) => OptDiscriminants::AzureBaseUrl,
        Opt::AzureApiVersion(_) => OptDiscriminants::AzureApiVersion,
        Opt::Stream(_) => OptDiscriminants::Stream,
    }
}

/// The first value in a layer that sets option `d`, if any.
pub open spec fn layer_lookup(layer: Seq<Opt>, d: OptDiscriminants) -> Option<Opt>
    decreases layer.len(),
{
    if layer.len() == 0 {
        None
    } else if discriminant_of(layer[0]) == d {
        Some(layer[0])
    } else {
        layer_lookup(layer.drop_first(), d)
    }
}

/// The value of option `d` in the highest-priority layer (the last) that sets it.
pub open spec fn cascade_lookup(layers: Seq<Seq<Opt>>, d: OptDiscriminants) -> Option<Opt>
    decreases layers.len(),
{
    if layers.len() == 0 {
        None
    } else {
        match layer_lookup(layers.last(), d) {
            Some(o) => Some(o),
            None => cascade_lookup(layers.drop_last(), d),
        }
    }
}

impl Opt {
    pub fn discriminant(&self) -> (r: OptDiscriminants)
        ensures
            r == discriminant_of(*self),
    {
        match self {
            Opt::Model(_) => OptDiscriminants::Model,
            Opt::ApiKey(_) => OptDiscriminants::ApiKey,
            Opt::AzureDeployment(_) => OptDiscriminants::AzureDeployment,
            Opt::AzureBaseUrl(_) => OptDiscriminants::AzureBaseUrl,
            Opt::AzureApiVersion(_) => OptDiscriminants::AzureApiVersion,
            Opt::Stream(_) => OptDiscriminants::Stream,
        }
    }
}

impl Clone for Opt {
    fn clone(&self) -> (r: Opt)
        ensures
            r == *self,
    {
        match self {
            Opt::Model(s) => Opt::Model(s.clone()),
            Opt::ApiKey(s) => Opt::ApiKey(s.clone()),
            Opt::AzureDeployment(s) => Opt::AzureDeployment(s.clone()),
            Opt::AzureBaseUrl(s) => Opt::AzureBaseUrl(s.clone()),
            Opt::AzureApiVersion(s) => Opt::AzureApiVersion(s.clone()),
            Opt::Stream(b) => Opt::Stream(*b),
        }
    }
}

/// One configuration layer: an ordered list of option values.
#[derive(Debug)]
pub struct Options {
    opts: Vec<Opt>,
}

impl View for Options {
    type V = Seq<Opt>;

    closed spec fn view(&self) -> Seq<Opt> {
        self.opts@
    }
}

impl Options {
    /// A layer that sets nothing.
    pub fn empty() -> (r: Options)
        ensures
            r@ == Seq::<Opt>::empty(),
    {
        Options { opts: Vec::new() }
    }

    /// A layer holding the given values, in order.
    pub fn from_vec(opts: Vec<Opt>) -> (r: Options)
        ensures
            r@ == opts@,
    {
        Options { opts }
    }

    /// Appends a value at the end of the layer.
    pub fn add_option(&mut self, opt: Opt)
        ensures
            final(self)@ == old(self)@.push(opt),
    {
        self.opts.push(opt);
    }

    /// The first value in this layer that sets option `d`.
    pub fn get(&self, d: OptDiscriminants) -> (r: Option<&Opt>)
        ensures
            match r {
                Some(o) => layer_lookup(self@, d) == Some(*o),
                None => layer_lookup(self@, d) is None,
            },
    {
        let mut i: usize = 0;
        assert(self@.skip(0) =~= self@);
        while i < self.opts.len()
            invariant
                0 <= i <= self.opts@.len(),
                layer_lookup(self@, d) == layer_lookup(self@.skip(i as int), d),
            decreases self.opts@.len() - i,
        {
            assert(self@.skip(i as int).drop_first() =~= self@.skip(i + 1));
            if self.opts[i].discriminant() == d {
                return Some(&self.opts[i]);
            }
            i = i + 1;
        }
        assert(self@.skip(i as int).len() == 0);
        None
    }
}

/// An ordered list of layers, from lowest priority (first) to highest (last).
pub struct OptionsCascade<'a> {
    layers: Vec<&'a Options>,
}

impl<'a> View for OptionsCascade<'a> {
    type V = Seq<Seq<Opt>>;

    closed spec fn view(&self) -> Seq<Seq<Opt>> {
        self.layers@.map_values(|l: &'a Options| l@)
    }
}

impl<'a> OptionsCascade<'a> {
    /// A cascade with no layers.
    pub fn new() -> (r: OptionsCascade<'a>)
        ensures
            r@ == Seq::<Seq<Opt>>::empty(),
    {
        OptionsCascade { layers: Vec::new() }
    }

    /// A cascade over the given layers, lowest priority first.
    pub fn from_vec(layers: Vec<&'a Options>) -> (r: OptionsCascade<'a>)
        ensures
            r@ == layers@.map_values(|l: &'a Options| l@),
    {
        OptionsCascade { layers }
    }

    /// This cascade with `options` added as its highest-priority layer.
    pub fn with_options(self, options: &'a Options) -> (r: OptionsCascade<'a>)
        ensures
            r@ == self@.push(options@),
    {
        let mut layers = self.layers;
        layers.push(options);
        let r = OptionsCascade { layers };
        assert(r@ =~= self@.push(options@));
        r
    }

    /// The value of option `d` in the highest-priority layer that sets it.
    pub fn get(&self, d: OptDiscriminants) -> (r: Option<&Opt>)
        ensures
            match r {
                Some(o) => cascade_lookup(self@, d) == Some(*o),
                None => cascade_lookup(self@, d) is None,
            },
    {
        let mut i: usize = self.layers.len();
        assert(self@.take(i as int) =~= self@);
        while i > 0
            invariant
                0 <= i <= self.layers@.len(),
                cascade_lookup(self@, d) == cascade_lookup(self@.take(i as int), d),
            decreases i,
        {
            let layer: &Options = self.layers[i - 1];
            assert(self@.take(i as int).drop_last() =~= self@.take(i - 1));
            assert(self@.take(i as int).last() == layer@);
            match layer.get(d) {
                Some(o) => {
                    return Some(o);
                },
                None => {},
            }
            i = i - 1;
        }
        assert(self@.take(0) =~= Seq::<Seq<Opt>>::empty());
        None
    }

    /// Whether the cascade asks for a streamed response (off when unset).
    pub fn is_streaming(&self) -> (r: bool)
        ensures
            r == (cascade_lookup(self@, OptDiscriminants::Stream) == Some(Opt::Stream(true))),
    {
        match self.get(OptDiscriminants::Stream) {
            Some(Opt::Stream(b)) => *b,
            _ => false,
        }
    }
}

/// With two layers that both set `d`, the value comes from the second,
/// higher-priority one.
pub proof fn lemma_higher_layer_wins(low: Seq<Opt>, high: Seq<Opt>, d: OptDiscriminants)
    requires
        layer_lookup(low, d) is Some,
        layer_lookup(high, d) is Some,
    ensures
        cascade_lookup(seq![low, high], d) == layer_lookup(high, d),
{
    assert(seq![low, high].last() == high);
}

/// When no layer sets `d`, the lookup finds nothing (and nothing else happens:
/// the lookup is total).
pub proof fn lemma_unset_is_undefined(layers: Seq<Seq<Opt>>, d: OptDiscriminants)
    requires
        forall|i: int| 0 <= i < layers.len() ==> #[trigger] layer_lookup(layers[i], d) is None,
    ensures
        cascade_lookup(layers, d) is None,
    decreases layers.len(),
{
    if layers.len() > 0 {
        let rest = layers.drop_last();
        assert forall|i: int| 0 <= i < rest.len() implies #[trigger] layer_lookup(rest[i], d) is None by {
            assert(rest[i] == layers[i]);
        }
        assert(layer_lookup(layers[layers.len() - 1], d) is None);
        lemma_unset_is_undefined(rest, d);
    }
}

} // verus!
