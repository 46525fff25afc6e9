use vstd::prelude::*;

use crate::constants::{COLLIDER, CONTACT_DAMAGE, ENTITY, RATCHET, SHOOTABLE, WATER};
use crate::text::{
    chars_of, parse_csv_u32, parse_i32, parse_u32, same_text, spec_parse_csv_u32, spec_parse_i32,
    spec_parse_u32,
};
use crate::xml_items::{read_xml_items, xml_reader_items, XmlAttribute, XmlItem};

verus! {

/// A tile layer of a map: a grid of `width` by `height` tile ids, row by row from the top.
pub struct Layer {
    pub id: i32,
    pub name: String,
    /// tiles wide
    pub width: u32,
    /// tiles tall
    pub height: u32,
    pub tile_data: Vec<u32>,
}

pub struct LayerView {
    pub id: i32,
    pub name: Seq<char>,
    pub width: u32,
    pub height: u32,
    pub tile_data: Seq<u32>,
}

impl View for Layer {
    type V = LayerView;

    open spec fn view(&self) -> LayerView {
        LayerView {
            id: self.id,
            name: self.name@,
            width: self.width,
            height: self.height,
            tile_data: self.tile_data@,
        }
    }
}

/// The layer a `<layer>` element starts from before its attributes are read.
pub open spec fn default_layer() -> LayerView {
    LayerView { id: -1i32, name: Seq::empty(), width: 0, height: 0, tile_data: Seq::empty() }
}

impl Default for Layer {
    fn default() -> (r: Self)
        ensures
            r@ == default_layer(),
    {
        Layer { id: -1, name: String::new(), width: 0, height: 0, tile_data: Vec::new() }
    }
}

/// Why a TMX map could not be loaded.
#[derive(Debug, Clone, Copy, PartialEq, Eq)]
pub enum MapError {
    /// A `width`, `height`, `tilewidth` or `tileheight` attribute of `<map>` is not a u32.
    BadMapAttribute,
    /// The `firstgid` attribute of `<tileset>` is not a u32.
    BadTilesetFirstGid,
    /// The `id` (i32), `width` or `height` (u32) attribute of `<layer>` does not parse.
    BadLayerAttribute,
    LayerMissingId,
    LayerMissingWidth,
    LayerMissingHeight,
    /// A `<data>` block whose encoding is not csv.
    UnsupportedDataEncoding,
    /// A token of a `<data>` block is not a u32.
    BadTileIndex,
    /// Character data of a `<data>` block with no `<layer>` open.
    DataOutsideLayer,
    /// `</layer>` with no `<layer>` open.
    UnmatchedLayerEnd,
    /// A layer whose data does not hold `width * height` tiles.
    LayerSizeMismatch { expected: u64, found: u64 },
    MissingTileset,
    MissingFirstGid,
    MissingWidth,
    MissingHeight,
    MissingTileWidth,
    MissingTileHeight,
}

/// What the loader has read so far of a TMX document.
pub struct TmxState {
    pub tileset_source: Option<Seq<char>>,
    pub first_gid: Option<u32>,
    pub width: Option<u32>,
    pub height: Option<u32>,
    pub tile_width: Option<u32>,
    pub tile_height: Option<u32>,
    pub layers: Seq<LayerView>,
    pub current_layer: Option<LayerView>,
    pub reading_data: bool,
}

pub open spec fn tmx_initial() -> TmxState {
    TmxState {
        tileset_source: None,
        first_gid: None,
        width: None,
        height: None,
        tile_width: None,
        tile_height: None,
        layers: Seq::empty(),
        current_layer: None,
        reading_data: false,
    }
}

/// One attribute of `<map>`.
pub open spec fn map_attr_step(st: TmxState, a: XmlAttribute) -> Result<TmxState, MapError> {
    let n = a.name@;
    let v = spec_parse_u32(a.value@);
    if n == "width"@ {
        match v { Some(x) => Ok(TmxState { width: Some(x), ..st }), None => Err(MapError::BadMapAttribute) }
    } else if n == "height"@ {
        match v { Some(x) => Ok(TmxState { height: Some(x), ..st }), None => Err(MapError::BadMapAttribute) }
    } else if n == "tilewidth"@ {
        match v { Some(x) => Ok(TmxState { tile_width: Some(x), ..st }), None => Err(MapError::BadMapAttribute) }
    } else if n == "tileheight"@ {
        match v { Some(x) => Ok(TmxState { tile_height: Some(x), ..st }), None => Err(MapError::BadMapAttribute) }
    } else {
        Ok(st)
    }
}

/// One attribute of `<tileset>`.
pub open spec fn tileset_attr_step(st: TmxState, a: XmlAttribute) -> Result<TmxState, MapError> {
    let n = a.name@;
    if n == "source"@ {
        Ok(TmxState { tileset_source: Some(a.value@), ..st })
    } else if n == "firstgid"@ {
        match spec_parse_u32(a.value@) {
            Some(x) => Ok(TmxState { first_gid: Some(x), ..st }),
            None => Err(MapError::BadTilesetFirstGid),
        }
    } else {
        Ok(st)
    }
}

/// One attribute of `<layer>`.
pub open spec fn layer_attr_step(l: LayerView, a: XmlAttribute) -> Result<LayerView, MapError> {
    let n = a.name@;
    if n == "id"@ {
        match spec_parse_i32(a.value@) {
            Some(x) => Ok(LayerView { id: x, ..l }),
            None => Err(MapError::BadLayerAttribute),
        }
    } else if n == "width"@ {
        match spec_parse_u32(a.value@) {
            Some(x) => Ok(LayerView { width: x, ..l }),
            None => Err(MapError::BadLayerAttribute),
        }
    } else if n == "height"@ {
        match spec_parse_u32(a.value@) {
            Some(x) => Ok(LayerView { height: x, ..l }),
            None => Err(MapError::BadLayerAttribute),
        }
    } else if n == "name"@ {
        Ok(LayerView { name: a.value@, ..l })
    } else {
        Ok(l)
    }
}

/// Applies `step` to each of `xs` in order, starting from `st`; the first error stops it.
pub open spec fn fold_steps<S, A>(st: S, xs: Seq<A>, step: spec_fn(S, A) -> Result<S, MapError>) -> Result<S, MapError>
    decreases xs.len(),
{
    if xs.len() == 0 {
        Ok(st)
    } else {
        match fold_steps(st, xs.drop_last(), step) {
            Ok(s) => step(s, xs.last()),
            Err(e) => Err(e),
        }
    }
}

/// The attributes of `<map>`, read in order; the first that fails stops the load.
pub open spec fn map_attrs(st: TmxState, attrs: Seq<XmlAttribute>) -> Result<TmxState, MapError> {
    fold_steps(st, attrs, map_attr_stepper())
}

pub open spec fn map_attr_stepper() -> spec_fn(TmxState, XmlAttribute) -> Result<TmxState, MapError> {
    |s: TmxState, a: XmlAttribute| map_attr_step(s, a)
}

pub open spec fn tileset_attrs(st: TmxState, attrs: Seq<XmlAttribute>) -> Result<TmxState, MapError> {
    fold_steps(st, attrs, tileset_attr_stepper())
}

pub open spec fn tileset_attr_stepper() -> spec_fn(TmxState, XmlAttribute) -> Result<TmxState, MapError> {
    |s: TmxState, a: XmlAttribute| tileset_attr_step(s, a)
}

pub open spec fn layer_attrs(l: LayerView, attrs: Seq<XmlAttribute>) -> Result<LayerView, MapError> {
    fold_steps(l, attrs, layer_attr_stepper())
}

pub open spec fn layer_attr_stepper() -> spec_fn(LayerView, XmlAttribute) -> Result<LayerView, MapError> {
    |x: LayerView, a: XmlAttribute| layer_attr_step(x, a)
}

/// `<layer ...>`: reads a new layer, which must have an id, a width and a height.
pub open spec fn layer_start(st: TmxState, attrs: Seq<XmlAttribute>) -> Result<TmxState, MapError> {
    match layer_attrs(default_layer(), attrs) {
        Err(e) => Err(e),
        Ok(l) => if l.id == -1 {
            Err(MapError::LayerMissingId)
        } else if l.width == 0 {
            Err(MapError::LayerMissingWidth)
        } else if l.height == 0 {
            Err(MapError::LayerMissingHeight)
        } else {
            Ok(TmxState { current_layer: Some(l), ..st })
        },
    }
}

pub open spec fn is_csv_encoding(a: XmlAttribute) -> bool {
    a.name@ == "encoding"@ && a.value@ == "csv"@
}

/// `<data ...>`: only csv encoded data is read.
pub open spec fn data_start(st: TmxState, attrs: Seq<XmlAttribute>) -> Result<TmxState, MapError> {
    if exists|i: int| 0 <= i < attrs.len() && is_csv_encoding(#[trigger] attrs[i]) {
        Ok(TmxState { reading_data: true, ..st })
    } else {
        Err(MapError::UnsupportedDataEncoding)
    }
}

/// Character data: while a csv `<data>` block is being read, its tile indices are appended to
/// the open layer.
pub open spec fn characters_step(st: TmxState, text: Seq<char>) -> Result<TmxState, MapError> {
    if !st.reading_data {
        Ok(st)
    } else {
        match st.current_layer {
            None => Err(MapError::DataOutsideLayer),
            Some(l) => match spec_parse_csv_u32(text) {
                None => Err(MapError::BadTileIndex),
                Some(v) => Ok(TmxState { current_layer: Some(LayerView { tile_data: l.tile_data + v, ..l }), ..st }),
            },
        }
    }
}

/// `</layer>`: the open layer, which must hold `width * height` tiles, joins the map.
pub open spec fn layer_end(st: TmxState) -> Result<TmxState, MapError> {
    match st.current_layer {
        None => Err(MapError::UnmatchedLayerEnd),
        Some(l) => {
            let expected = l.width * l.height;
            if l.tile_data.len() != expected {
                Err(MapError::LayerSizeMismatch { expected: expected as u64, found: l.tile_data.len() as u64 })
            } else {
                Ok(TmxState { layers: st.layers.push(l), current_layer: None, ..st })
            }
        },
    }
}

/// One event of the document.
pub open spec fn tmx_step(st: TmxState, item: XmlItem) -> Result<TmxState, MapError> {
    match item {
        XmlItem::StartElement { name, attributes } => {
            let n = name@;
            if n == "map"@ {
                map_attrs(st, attributes@)
            } else if n == "tileset"@ {
                tileset_attrs(st, attributes@)
            } else if n == "layer"@ {
                layer_start(st, attributes@)
            } else if n == "data"@ {
                data_start(st, attributes@)
            } else {
                Ok(st)
            }
        },
        XmlItem::Characters { text } => characters_step(st, text@),
        XmlItem::EndElement { name } => if name@ == "layer"@ {
            layer_end(st)
        } else {
            Ok(st)
        },
        _ => Ok(st),
    }
}

/// The events of the document, read in order; the first error stops the load.
pub open spec fn tmx_run(items: Seq<XmlItem>) -> Result<TmxState, MapError> {
    fold_steps(tmx_initial(), items, tmx_stepper())
}

pub open spec fn tmx_stepper() -> spec_fn(TmxState, XmlItem) -> Result<TmxState, MapError> {
    |s: TmxState, i: XmlItem| tmx_step(s, i)
}

/// One more step of a fold: its result on the first `j + 1` items.
pub proof fn lemma_fold_steps_next<S, A>(st: S, xs: Seq<A>, step: spec_fn(S, A) -> Result<S, MapError>, j: int)
    requires
        0 <= j < xs.len(),
    ensures
        fold_steps(st, xs.take(j + 1), step) == match fold_steps(st, xs.take(j), step) {
            Ok(s) => step(s, xs[j]),
            Err(e) => Err(e),
        },
{
    assert(xs.take(j + 1).drop_last() =~= xs.take(j));
    assert(xs.take(j + 1).last() == xs[j]);
}

/// Once a fold has failed on a prefix, it fails with the same error on the whole.
pub proof fn lemma_fold_steps_err<S, A>(st: S, xs: Seq<A>, step: spec_fn(S, A) -> Result<S, MapError>, j: int)
    requires
        0 <= j <= xs.len(),
        fold_steps(st, xs.take(j), step) is Err,
    ensures
        fold_steps(st, xs, step) == fold_steps(st, xs.take(j), step),
    decreases xs.len() - j,
{
    if j < xs.len() {
        lemma_fold_steps_next(st, xs, step, j);
        lemma_fold_steps_err(st, xs, step, j + 1);
    } else {
        assert(xs.take(j) =~= xs);
    }
}

pub proof fn lemma_fold_steps_all<S, A>(st: S, xs: Seq<A>, step: spec_fn(S, A) -> Result<S, MapError>)
    ensures
        fold_steps(st, xs.take(xs.len() as int), step) == fold_steps(st, xs, step),
{
    assert(xs.take(xs.len() as int) =~= xs);
}

/// The map that a loaded document describes: every required attribute must have been read.
pub open spec fn tmx_finish(st: TmxState) -> Result<MapView, MapError> {
    if st.tileset_source is None {
        Err(MapError::MissingTileset)
    } else if st.first_gid is None {
        Err(MapError::MissingFirstGid)
    } else if st.width is None {
        Err(MapError::MissingWidth)
    } else if st.height is None {
        Err(MapError::MissingHeight)
    } else if st.tile_width is None {
        Err(MapError::MissingTileWidth)
    } else if st.tile_height is None {
        Err(MapError::MissingTileHeight)
    } else {
        Ok(MapView {
            tileset_source: st.tileset_source->0,
            tileset_first_gid: st.first_gid->0,
            width: st.width->0,
            height: st.height->0,
            tile_width: st.tile_width->0,
            tile_height: st.tile_height->0,
            layers: st.layers,
        })
    }
}

/// The result of loading a TMX map from the events of its document.
pub open spec fn spec_map_from_items(items: Seq<XmlItem>) -> Result<MapView, MapError> {
    match tmx_run(items) {
        Ok(st) => tmx_finish(st),
        Err(e) => Err(e),
    }
}

/// A tile map: the tileset it uses, its size in tiles, the pixel size of its tiles, and its layers.
pub struct TileMap {
    /// The path, relative to the map file, of the tileset that the map uses.
    pub tileset_source: String,
    tileset_first_gid: u32,
    pub width: u32,
    pub height: u32,
    tile_width: u32,
    tile_height: u32,
    pub layers: Vec<Layer>,
}

pub struct MapView {
    pub tileset_source: Seq<char>,
    pub tileset_first_gid: u32,
    pub width: u32,
    pub height: u32,
    pub tile_width: u32,
    pub tile_height: u32,
    pub layers: Seq<LayerView>,
}

pub open spec fn layer_views(layers: Seq<Layer>) -> Seq<LayerView> {
    layers.map_values(|l: Layer| l@)
}

impl View for TileMap {
    type V = MapView;

    closed spec fn view(&self) -> MapView {
        MapView {
            tileset_source: self.tileset_source@,
            tileset_first_gid: self.tileset_first_gid,
            width: self.width,
            height: self.height,
            tile_width: self.tile_width,
            tile_height: self.tile_height,
            layers: layer_views(self.layers@),
        }
    }
}


pub open spec fn opt_text(o: Option<String>) -> Option<Seq<char>> {
    match o {
        Some(t) => Some(t@),
        None => None,
    }
}

pub open spec fn opt_layer(o: Option<Layer>) -> Option<LayerView> {
    match o {
        Some(l) => Some(l@),
        None => None,
    }
}

/// The loader's state while it reads the events of a TMX document.
struct TmxReader {
    tileset_source: Option<String>,
    first_gid: Option<u32>,
    width: Option<u32>,
    height: Option<u32>,
    tile_width: Option<u32>,
    tile_height: Option<u32>,
    layers: Vec<Layer>,
    current_layer: Option<Layer>,
    reading_data: bool,
}

impl TmxReader {
    spec fn state(&self) -> TmxState {
        TmxState {
            tileset_source: opt_text(self.tileset_source),
            first_gid: self.first_gid,
            width: self.width,
            height: self.height,
            tile_width: self.tile_width,
            tile_height: self.tile_height,
            layers: layer_views(self.layers@),
            current_layer: opt_layer(self.current_layer),
            reading_data: self.reading_data,
        }
    }

    fn new() -> (r: Self)
        ensures
            r.state() == tmx_initial(),
    {
        let r = TmxReader {
            tileset_source: None,
            first_gid: None,
            width: None,
            height: None,
            tile_width: None,
            tile_height: None,
            layers: Vec::new(),
            current_layer: None,
            reading_data: false,
        };
        assert(layer_views(r.layers@) =~= Seq::<LayerView>::empty());
        r
    }

    fn map_attr(&mut self, a: &XmlAttribute) -> (r: Result<(), MapError>)
        ensures
            match r {
                Ok(_) => map_attr_step(old(self).state(), *a) == Ok::<TmxState, MapError>(final(self).state()),
                Err(e) => map_attr_step(old(self).state(), *a) == Err::<TmxState, MapError>(e),
            },
    {
        let n = a.name.as_str();
        let v = parse_u32(&chars_of(a.value.as_str()));
        if same_text(n, "width") {
            match v {
                Some(x) => { self.width = Some(x); Ok(()) },
                None => Err(MapError::BadMapAttribute),
            }
        } else if same_text(n, "height") {
            match v {
                Some(x) => { self.height = Some(x); Ok(()) },
                None => Err(MapError::BadMapAttribute),
            }
        } else if same_text(n, "tilewidth") {
            match v {
                Some(x) => { self.tile_width = Some(x); Ok(()) },
                None => Err(MapError::BadMapAttribute),
            }
        } else if same_text(n, "tileheight") {
            match v {
                Some(x) => { self.tile_height = Some(x); Ok(()) },
                None => Err(MapError::BadMapAttribute),
            }
        } else {
            Ok(())
        }
    }

    fn map_attrs(&mut self, attrs: &Vec<XmlAttribute>) -> (r: Result<(), MapError>)
        ensures
            match r {
                Ok(_) => map_attrs(old(self).state(), attrs@) == Ok::<TmxState, MapError>(final(self).state()),
                Err(e) => map_attrs(old(self).state(), attrs@) == Err::<TmxState, MapError>(e),
            },
    {
        let ghost st0 = self.state();
        let mut i: usize = 0;
        while i < attrs.len()
            invariant
                0 <= i <= attrs.len(),
                st0 == old(self).state(),
                fold_steps(st0, attrs@.take(i as int), map_attr_stepper()) == Ok::<TmxState, MapError>(self.state()),
            decreases attrs.len() - i,
        {
            proof {
                lemma_fold_steps_next(st0, attrs@, map_attr_stepper(), i as int);
            }
            match self.map_attr(&attrs[i]) {
                Ok(_) => {},
                Err(e) => {
                    proof {
                        lemma_fold_steps_err(st0, attrs@, map_attr_stepper(), i as int + 1);
                    }
                    return Err(e);
                },
            }
            i = i + 1;
        }
        proof {
            lemma_fold_steps_all(st0, attrs@, map_attr_stepper());
        }
        Ok(())
    }

    fn tileset_attr(&mut self, a: &XmlAttribute) -> (r: Result<(), MapError>)
        ensures
            match r {
                Ok(_) => tileset_attr_step(old(self).state(), *a) == Ok::<TmxState, MapError>(final(self).state()),
                Err(e) => tileset_attr_step(old(self).state(), *a) == Err::<TmxState, MapError>(e),
            },
    {
        let n = a.name.as_str();
        if same_text(n, "source") {
            self.tileset_source = Some(a.value.clone());
            Ok(())
        } else if same_text(n, "firstgid") {
            match parse_u32(&chars_of(a.value.as_str())) {
                Some(x) => { self.first_gid = Some(x); Ok(()) },
                None => Err(MapError::BadTilesetFirstGid),
            }
        } else {
            Ok(())
        }
    }

    fn tileset_attrs(&mut self, attrs: &Vec<XmlAttribute>) -> (r: Result<(), MapError>)
        ensures
            match r {
                Ok(_) => tileset_attrs(old(self).state(), attrs@) == Ok::<TmxState, MapError>(final(self).state()),
                Err(e) => tileset_attrs(old(self).state(), attrs@) == Err::<TmxState, MapError>(e),
            },
    {
        let ghost st0 = self.state();
        let mut i: usize = 0;
        while i < attrs.len()
            invariant
                0 <= i <= attrs.len(),
                st0 == old(self).state(),
                fold_steps(st0, attrs@.take(i as int), tileset_attr_stepper()) == Ok::<TmxState, MapError>(self.state()),
            decreases attrs.len() - i,
        {
            proof {
                lemma_fold_steps_next(st0, attrs@, tileset_attr_stepper(), i as int);
            }
            match self.tileset_attr(&attrs[i]) {
                Ok(_) => {},
                Err(e) => {
                    proof {
                        lemma_fold_steps_err(st0, attrs@, tileset_attr_stepper(), i as int + 1);
                    }
                    return Err(e);
                },
            }
            i = i + 1;
        }
        proof {
            lemma_fold_steps_all(st0, attrs@, tileset_attr_stepper());
        }
        Ok(())
    }

    fn layer_start(&mut self, attrs: &Vec<XmlAttribute>) -> (r: Result<(), MapError>)
        ensures
            match r {
                Ok(_) => layer_start(old(self).state(), attrs@) == Ok::<TmxState, MapError>(final(self).state()),
                Err(e) => layer_start(old(self).state(), attrs@) == Err::<TmxState, MapError>(e),
            },
    {
        let mut l = Layer::default();
        match layer_attrs_exec(&mut l, attrs) {
            Ok(_) => {},
            Err(e) => {
                return Err(e);
            },
        }
        if l.id == -1 {
            Err(MapError::LayerMissingId)
        } else if l.width == 0 {
            Err(MapError::LayerMissingWidth)
        } else if l.height == 0 {
            Err(MapError::LayerMissingHeight)
        } else {
            self.current_layer = Some(l);
            Ok(())
        }
    }

    fn data_start(&mut self, attrs: &Vec<XmlAttribute>) -> (r: Result<(), MapError>)
        ensures
            match r {
                Ok(_) => data_start(old(self).state(), attrs@) == Ok::<TmxState, MapError>(final(self).state()),
                Err(e) => data_start(old(self).state(), attrs@) == Err::<TmxState, MapError>(e),
            },
    {
        let mut found = false;
        let mut i: usize = 0;
        while i < attrs.len()
            invariant
                0 <= i <= attrs.len(),
                found == exists|j: int| 0 <= j < i && is_csv_encoding(#[trigger] attrs@[j]),
            decreases attrs.len() - i,
        {
            if same_text(attrs[i].name.as_str(), "encoding") && same_text(attrs[i].value.as_str(), "csv") {
                found = true;
            }
            i = i + 1;
        }
        if found {
            self.reading_data = true;
            Ok(())
        } else {
            Err(MapError::UnsupportedDataEncoding)
        }
    }

    fn characters(&mut self, text: &String) -> (r: Result<(), MapError>)
        ensures
            match r {
                Ok(_) => characters_step(old(self).state(), text@) == Ok::<TmxState, MapError>(final(self).state()),
                Err(e) => characters_step(old(self).state(), text@) == Err::<TmxState, MapError>(e),
            },
    {
        if !self.reading_data {
            return Ok(());
        }
        let mut cur: Option<Layer> = None;
        std::mem::swap(&mut cur, &mut self.current_layer);
        match cur {
            None => Err(MapError::DataOutsideLayer),
            Some(mut l) => match parse_csv_u32(&chars_of(text.as_str())) {
                None => Err(MapError::BadTileIndex),
                Some(mut values) => {
                    l.tile_data.append(&mut values);
                    self.current_layer = Some(l);
                    Ok(())
                },
            },
        }
    }

    fn layer_end(&mut self) -> (r: Result<(), MapError>)
        ensures
            match r {
                Ok(_) => layer_end(old(self).state()) == Ok::<TmxState, MapError>(final(self).state()),
                Err(e) => layer_end(old(self).state()) == Err::<TmxState, MapError>(e),
            },
    {
        let mut cur: Option<Layer> = None;
        std::mem::swap(&mut cur, &mut self.current_layer);
        match cur {
            None => Err(MapError::UnmatchedLayerEnd),
            Some(l) => {
                proof {
                    let w = l.width as int;
                    let h = l.height as int;
                    assert(w * h <= 0xffff_ffff * 0xffff_ffff) by (nonlinear_arith)
                        requires 0 <= w <= 0xffff_ffff, 0 <= h <= 0xffff_ffff;
                }
                let expected: u64 = (l.width as u64) * (l.height as u64);
                let found: u64 = l.tile_data.len() as u64;
                if found != expected {
                    Err(MapError::LayerSizeMismatch { expected, found })
                } else {
                    let ghost before = self.layers@;
                    self.layers.push(l);
                    proof {
                        assert(layer_views(self.layers@) =~= layer_views(before).push(l@));
                    }
                    Ok(())
                }
            },
        }
    }

    fn step(&mut self, item: &XmlItem) -> (r: Result<(), MapError>)
        ensures
            match r {
                Ok(_) => tmx_step(old(self).state(), *item) == Ok::<TmxState, MapError>(final(self).state()),
                Err(e) => tmx_step(old(self).state(), *item) == Err::<TmxState, MapError>(e),
            },
    {
        match item {
            XmlItem::StartElement { name, attributes } => {
                let n = name.as_str();
                if same_text(n, "map") {
                    self.map_attrs(attributes)
                } else if same_text(n, "tileset") {
                    self.tileset_attrs(attributes)
                } else if same_text(n, "layer") {
                    self.layer_start(attributes)
                } else if same_text(n, "data") {
                    self.data_start(attributes)
                } else {
                    Ok(())
                }
            },
            XmlItem::Characters { text } => self.characters(text),
            XmlItem::EndElement { name } => {
                if same_text(name.as_str(), "layer") {
                    self.layer_end()
                } else {
                    Ok(())
                }
            },
            _ => Ok(()),
        }
    }

    fn run(&mut self, items: &Vec<XmlItem>) -> (r: Result<(), MapError>)
        requires
            old(self).state() == tmx_initial(),
        ensures
            match r {
                Ok(_) => tmx_run(items@) == Ok::<TmxState, MapError>(final(self).state()),
                Err(e) => tmx_run(items@) == Err::<TmxState, MapError>(e),
            },
    {
        let mut i: usize = 0;
        while i < items.len()
            invariant
                0 <= i <= items.len(),
                fold_steps(tmx_initial(), items@.take(i as int), tmx_stepper()) == Ok::<TmxState, MapError>(self.state()),
            decreases items.len() - i,
        {
            proof {
                lemma_fold_steps_next(tmx_initial(), items@, tmx_stepper(), i as int);
            }
            match self.step(&items[i]) {
                Ok(_) => {},
                Err(e) => {
                    proof {
                        lemma_fold_steps_err(tmx_initial(), items@, tmx_stepper(), i as int + 1);
                    }
                    return Err(e);
                },
            }
            i = i + 1;
        }
        proof {
            lemma_fold_steps_all(tmx_initial(), items@, tmx_stepper());
        }
        Ok(())
    }

    fn finish(self) -> (r: Result<TileMap, MapError>)
        ensures
            match r {
                Ok(m) => tmx_finish(self.state()) == Ok::<MapView, MapError>(m@),
                Err(e) => tmx_finish(self.state()) == Err::<MapView, MapError>(e),
            },
    {
        let tileset_source = match self.tileset_source {
            Some(t) => t,
            None => {
                return Err(MapError::MissingTileset);
            },
        };
        let tileset_first_gid = match self.first_gid {
            Some(x) => x,
            None => {
                return Err(MapError::MissingFirstGid);
            },
        };
        let width = match self.width {
            Some(x) => x,
            None => {
                return Err(MapError::MissingWidth);
            },
        };
        let height = match self.height {
            Some(x) => x,
            None => {
                return Err(MapError::MissingHeight);
            },
        };
        let tile_width = match self.tile_width {
            Some(x) => x,
            None => {
                return Err(MapError::MissingTileWidth);
            },
        };
        let tile_height = match self.tile_height {
            Some(x) => x,
            None => {
                return Err(MapError::MissingTileHeight);
            },
        };
        Ok(TileMap { tileset_source, tileset_first_gid, width, height, tile_width, tile_height, layers: self.layers })
    }
}

fn layer_attr(l: &mut Layer, a: &XmlAttribute) -> (r: Result<(), MapError>)
    ensures
        match r {
            Ok(_) => layer_attr_step(old(l)@, *a) == Ok::<LayerView, MapError>(final(l)@),
            Err(e) => layer_attr_step(old(l)@, *a) == Err::<LayerView, MapError>(e),
        },
{
    let n = a.name.as_str();
    if same_text(n, "id") {
        match parse_i32(&chars_of(a.value.as_str())) {
            Some(x) => { l.id = x; Ok(()) },
            None => Err(MapError::BadLayerAttribute),
        }
    } else if same_text(n, "width") {
        match parse_u32(&chars_of(a.value.as_str())) {
            Some(x) => { l.width = x; Ok(()) },
            None => Err(MapError::BadLayerAttribute),
        }
    } else if same_text(n, "height") {
        match parse_u32(&chars_of(a.value.as_str())) {
            Some(x) => { l.height = x; Ok(()) },
            None => Err(MapError::BadLayerAttribute),
        }
    } else if same_text(n, "name") {
        l.name = a.value.clone();
        Ok(())
    } else {
        Ok(())
    }
}

fn layer_attrs_exec(l: &mut Layer, attrs: &Vec<XmlAttribute>) -> (r: Result<(), MapError>)
    ensures
        match r {
            Ok(_) => layer_attrs(old(l)@, attrs@) == Ok::<LayerView, MapError>(final(l)@),
            Err(e) => layer_attrs(old(l)@, attrs@) == Err::<LayerView, MapError>(e),
        },
{
    let ghost l0 = l@;
    let mut i: usize = 0;
    while i < attrs.len()
        invariant
            0 <= i <= attrs.len(),
            l0 == old(l)@,
            fold_steps(l0, attrs@.take(i as int), layer_attr_stepper()) == Ok::<LayerView, MapError>(l@),
        decreases attrs.len() - i,
    {
        proof {
            lemma_fold_steps_next(l0, attrs@, layer_attr_stepper(), i as int);
        }
        match layer_attr(l, &attrs[i]) {
            Ok(_) => {},
            Err(e) => {
                proof {
                    lemma_fold_steps_err(l0, attrs@, layer_attr_stepper(), i as int + 1);
                }
                return Err(e);
            },
        }
        i = i + 1;
    }
    proof {
        lemma_fold_steps_all(l0, attrs@, layer_attr_stepper());
    }
    Ok(())
}


impl TileMap {
    /// Loads a map from the events of its TMX document.
    pub fn from_xml_items(items: &Vec<XmlItem>) -> (r: Result<TileMap, MapError>)
        ensures
            match r {
                Ok(m) => spec_map_from_items(items@) == Ok::<MapView, MapError>(m@),
                Err(e) => spec_map_from_items(items@) == Err::<MapView, MapError>(e),
            },
    {
        let mut reader = TmxReader::new();
        match reader.run(items) {
            Ok(_) => reader.finish(),
            Err(e) => Err(e),
        }
    }

    /// Loads a map from the bytes of a TMX document (csv encoded layers, one tileset).
    pub fn new_tmx(tmx_bytes: &[u8]) -> (r: Result<TileMap, MapError>)
        ensures
            match r {
                Ok(m) => spec_map_from_items(xml_reader_items(tmx_bytes@)) == Ok::<MapView, MapError>(m@),
                Err(e) => spec_map_from_items(xml_reader_items(tmx_bytes@)) == Err::<MapView, MapError>(e),
            },
    {
        let items = read_xml_items(tmx_bytes);
        TileMap::from_xml_items(&items)
    }
}


/// Tile id bits that mark a flipped tile (Tiled's TMX format, "Tile Flipping").
pub const FLIPPED_HORIZONTALLY_FLAG: u32 = 0x8000_0000;
pub const FLIPPED_VERTICALLY_FLAG: u32 = 0x4000_0000;
pub const FLIPPED_DIAGONALLY_FLAG: u32 = 0x2000_0000;

/// Where one tile of a layer goes: its grid position (x to the right, y up from the bottom of the
/// layer), the index of its tile in the map's tileset, and how the tile is flipped.
#[derive(Clone, Copy, Debug, PartialEq, Eq, Structural)]
pub struct TilePlacement {
    pub x: i32,
    pub y: i32,
    pub tile_index: u32,
    pub flipped_horizontally: bool,
    pub flipped_vertically: bool,
    pub flipped_diagonally: bool,
}

/// The tile that the layer cell at column `x`, row `y` (from the top) places, if its tile id,
/// with the flip flags cleared, names one of the `tile_count` tiles of the tileset.
pub open spec fn cell_placement(first_gid: u32, tile_count: u32, l: LayerView, x: int, y: int) -> Option<TilePlacement> {
    let raw = l.tile_data[y * l.width + x];
    let id = raw & !(FLIPPED_DIAGONALLY_FLAG | FLIPPED_VERTICALLY_FLAG | FLIPPED_HORIZONTALLY_FLAG);
    if first_gid <= id && id - first_gid < tile_count {
        Some(TilePlacement {
            x: x as i32,
            y: (l.height - y) as i32,
            tile_index: (id - first_gid) as u32,
            flipped_horizontally: raw & FLIPPED_HORIZONTALLY_FLAG != 0,
            flipped_vertically: raw & FLIPPED_VERTICALLY_FLAG != 0,
            flipped_diagonally: raw & FLIPPED_DIAGONALLY_FLAG != 0,
        })
    } else {
        None
    }
}

/// The placements of the first `n` cells of row `y`, left to right.
pub open spec fn row_placements(first_gid: u32, tile_count: u32, l: LayerView, y: int, n: int) -> Seq<TilePlacement>
    decreases n,
{
    if n <= 0 {
        Seq::empty()
    } else {
        let prev = row_placements(first_gid, tile_count, l, y, n - 1);
        match cell_placement(first_gid, tile_count, l, n - 1, y) {
            Some(p) => prev.push(p),
            None => prev,
        }
    }
}

/// The placements of the first `m` rows, top to bottom.
pub open spec fn rows_placements(first_gid: u32, tile_count: u32, l: LayerView, m: int) -> Seq<TilePlacement>
    decreases m,
{
    if m <= 0 {
        Seq::empty()
    } else {
        rows_placements(first_gid, tile_count, l, m - 1) + row_placements(first_gid, tile_count, l, m - 1, l.width as int)
    }
}

/// The placements of a whole layer.
pub open spec fn layer_placements(first_gid: u32, tile_count: u32, l: LayerView) -> Seq<TilePlacement> {
    rows_placements(first_gid, tile_count, l, l.height as int)
}

impl TileMap {
    pub fn tileset_first_gid(&self) -> (r: u32)
        ensures
            r == self@.tileset_first_gid,
    {
        self.tileset_first_gid
    }

    pub fn tile_width(&self) -> (r: u32)
        ensures
            r == self@.tile_width,
    {
        self.tile_width
    }

    pub fn tile_height(&self) -> (r: u32)
        ensures
            r == self@.tile_height,
    {
        self.tile_height
    }

    /// The bounds of the map in tiles, as (origin, extent).
    pub fn bounds(&self) -> (r: ((u32, u32), (u32, u32)))
        ensures
            r == ((0u32, 0u32), (self@.width, self@.height)),
    {
        ((0, 0), (self.width, self.height))
    }

    /// The first layer whose name is `name`, or `None` if there is none.
    pub fn layer_named(&self, name: &str) -> (r: Option<&Layer>)
        ensures
            match r {
                Some(l) => exists|i: int|
                    0 <= i < self@.layers.len() && self@.layers[i] == l@ && l.name@ == name@
                        && forall|j: int| 0 <= j < i ==> (#[trigger] self@.layers[j]).name != name@,
                None => forall|j: int| 0 <= j < self@.layers.len() ==> (#[trigger] self@.layers[j]).name != name@,
            },
    {
        let mut i: usize = 0;
        while i < self.layers.len()
            invariant
                0 <= i <= self.layers@.len(),
                self@.layers == layer_views(self.layers@),
                forall|j: int| 0 <= j < i ==> (#[trigger] self@.layers[j]).name != name@,
            decreases self.layers.len() - i,
        {
            if same_text(self.layers[i].name.as_str(), name) {
                assert(self@.layers[i as int] == self.layers@[i as int]@);
                return Some(&self.layers[i]);
            }
            assert(self@.layers[i as int] == self.layers@[i as int]@);
            i = i + 1;
        }
        None
    }

    /// Where the tiles of `layer` go: one placement for each cell, row by row from the top, whose
    /// tile id (with its flip flags cleared) names one of the `tile_count` tiles of the map's
    /// tileset.
    pub fn tile_placements(&self, layer: &Layer, tile_count: u32) -> (r: Vec<TilePlacement>)
        requires
            layer.tile_data@.len() == layer.width * layer.height,
            layer.width * layer.height <= 0x1_0000_0000,
        ensures
            r@ == layer_placements(self@.tileset_first_gid, tile_count, layer@),
    {
        let ghost l = layer@;
        let first_gid = self.tileset_first_gid;
        let mut out: Vec<TilePlacement> = Vec::new();
        let mut y: u32 = 0;
        while y < layer.height
            invariant
                l == layer@,
                first_gid == self@.tileset_first_gid,
                layer.tile_data@.len() == layer.width * layer.height,
                layer.width * layer.height <= 0x1_0000_0000,
                y <= layer.height,
                out@ == rows_placements(first_gid, tile_count, l, y as int),
            decreases layer.height - y,
        {
            let ghost before = out@;
            let mut x: u32 = 0;
            while x < layer.width
                invariant
                    l == layer@,
                    layer.tile_data@.len() == layer.width * layer.height,
                    layer.width * layer.height <= 0x1_0000_0000,
                    y < layer.height,
                    x <= layer.width,
                    out@ == before + row_placements(first_gid, tile_count, l, y as int, x as int),
                decreases layer.width - x,
            {
                proof {
                    let (w, h, yy, xx) = (layer.width as int, layer.height as int, y as int, x as int);
                    assert(yy * w + xx < w * h) by (nonlinear_arith)
                        requires 0 <= yy < h, 0 <= xx < w;
                    assert(yy * w + xx >= 0) by (nonlinear_arith)
                        requires 0 <= yy, 0 <= xx, 0 <= w;
                }
                let index: u32 = y * layer.width + x;
                let raw = layer.tile_data[index as usize];
                let id = raw & !(FLIPPED_DIAGONALLY_FLAG | FLIPPED_VERTICALLY_FLAG | FLIPPED_HORIZONTALLY_FLAG);
                if first_gid <= id && id - first_gid < tile_count {
                    out.push(TilePlacement {
                        x: x as i32,
                        y: (layer.height - y) as i32,
                        tile_index: id - first_gid,
                        flipped_horizontally: raw & FLIPPED_HORIZONTALLY_FLAG != 0,
                        flipped_vertically: raw & FLIPPED_VERTICALLY_FLAG != 0,
                        flipped_diagonally: raw & FLIPPED_DIAGONALLY_FLAG != 0,
                    });
                }
                proof {
                    assert(before + row_placements(first_gid, tile_count, l, y as int, x + 1) =~= out@);
                }
                x = x + 1;
            }
            y = y + 1;
        }
        out
    }
}

/// The collision mask of a sprite made from a tile: one bit for each property the tile has.
pub fn tile_mask(collision_shape: bool, water: bool, ratchet: bool, entity: bool, contact_damage: bool, shootable: bool) -> (r: u32)
    ensures
        (r & COLLIDER != 0) == collision_shape,
        (r & WATER != 0) == water,
        (r & RATCHET != 0) == ratchet,
        (r & ENTITY != 0) == entity,
        (r & CONTACT_DAMAGE != 0) == contact_damage,
        (r & SHOOTABLE != 0) == shootable,
        r & !(COLLIDER | WATER | RATCHET | ENTITY | CONTACT_DAMAGE | SHOOTABLE) == 0,
{
    let a: u32 = if collision_shape { COLLIDER } else { 0 };
    let b: u32 = if water { WATER } else { 0 };
    let c: u32 = if ratchet { RATCHET } else { 0 };
    let d: u32 = if entity { ENTITY } else { 0 };
    let e: u32 = if contact_damage { CONTACT_DAMAGE } else { 0 };
    let f: u32 = if shootable { SHOOTABLE } else { 0 };
    let r = a | b | c | d | e | f;
    assert(
        (a == 0 || a == 0x8000_0000u32) && (b == 0 || b == 0x4000_0000u32) && (c == 0 || c == 0x2000_0000u32)
        && (d == 0 || d == 0x1000_0000u32) && (e == 0 || e == 0x0800_0000u32) && (f == 0 || f == 0x0400_0000u32)
        && r == a | b | c | d | e | f
        ==> ((r & 0x8000_0000u32 != 0) == (a != 0)) && ((r & 0x4000_0000u32 != 0) == (b != 0))
            && ((r & 0x2000_0000u32 != 0) == (c != 0)) && ((r & 0x1000_0000u32 != 0) == (d != 0))
            && ((r & 0x0800_0000u32 != 0) == (e != 0)) && ((r & 0x0400_0000u32 != 0) == (f != 0))
            && (r & !(0x8000_0000u32 | 0x4000_0000u32 | 0x2000_0000u32 | 0x1000_0000u32 | 0x0800_0000u32 | 0x0400_0000u32)) == 0
    ) by (bit_vector);
    r
}


/// A layer that the loader accepts: it has an id, a size, and exactly one tile per cell.
pub open spec fn complete_layer(l: LayerView) -> bool {
    &&& l.id != -1
    &&& l.width > 0
    &&& l.height > 0
    &&& l.tile_data.len() == l.width * l.height
}

/// What holds of the loader's state after every event: each finished layer is complete, and the
/// open layer, if any, has an id and a size.
pub open spec fn tmx_state_ok(st: TmxState) -> bool {
    &&& forall|i: int| 0 <= i < st.layers.len() ==> complete_layer(#[trigger] st.layers[i])
    &&& (st.current_layer matches Some(l) ==> l.id != -1 && l.width > 0 && l.height > 0)
}

proof fn lemma_map_attrs_keep_layers(st: TmxState, attrs: Seq<XmlAttribute>)
    ensures
        map_attrs(st, attrs) matches Ok(s) ==> s.layers == st.layers && s.current_layer == st.current_layer,
    decreases attrs.len(),
{
    if attrs.len() > 0 {
        lemma_map_attrs_keep_layers(st, attrs.drop_last());
    }
}

proof fn lemma_tileset_attrs_keep_layers(st: TmxState, attrs: Seq<XmlAttribute>)
    ensures
        tileset_attrs(st, attrs) matches Ok(s) ==> s.layers == st.layers && s.current_layer == st.current_layer,
    decreases attrs.len(),
{
    if attrs.len() > 0 {
        lemma_tileset_attrs_keep_layers(st, attrs.drop_last());
    }
}

proof fn lemma_step_keeps_ok(st: TmxState, item: XmlItem)
    requires
        tmx_state_ok(st),
    ensures
        tmx_step(st, item) matches Ok(s) ==> tmx_state_ok(s),
{
    match item {
        XmlItem::StartElement { name, attributes } => {
            lemma_map_attrs_keep_layers(st, attributes@);
            lemma_tileset_attrs_keep_layers(st, attributes@);
        },
        XmlItem::EndElement { name } => {
            if name@ == "layer"@ {
                if let Ok(s) = layer_end(st) {
                    let l = st.current_layer->0;
                    assert forall|i: int| 0 <= i < s.layers.len() implies complete_layer(#[trigger] s.layers[i]) by {
                        if i < st.layers.len() {
                            assert(s.layers[i] == st.layers[i]);
                        }
                    }
                }
            }
        },
        _ => {},
    }
}

proof fn lemma_run_ok(items: Seq<XmlItem>)
    ensures
        tmx_run(items) matches Ok(st) ==> tmx_state_ok(st),
    decreases items.len(),
{
    if items.len() > 0 {
        lemma_run_ok(items.drop_last());
        if let Ok(st) = tmx_run(items.drop_last()) {
            lemma_step_keeps_ok(st, items.last());
        }
    }
}

/// Every layer of a loaded map is complete: it has an id, a nonzero width and height, and holds
/// exactly `width * height` tile ids.
pub proof fn lemma_loaded_layers_complete(items: Seq<XmlItem>)
    ensures
        spec_map_from_items(items) matches Ok(m) ==> forall|i: int| 0 <= i < m.layers.len() ==> complete_layer(#[trigger] m.layers[i]),
{
    lemma_run_ok(items);
}

/// Every placement of a layer names one of the `tile_count` tiles of the tileset.
pub proof fn lemma_placements_in_tileset(first_gid: u32, tile_count: u32, l: LayerView)
    ensures
        forall|i: int| 0 <= i < layer_placements(first_gid, tile_count, l).len() ==> {
            let p = #[trigger] layer_placements(first_gid, tile_count, l)[i];
            p.tile_index < tile_count
        },
{
    lemma_rows_in_tileset(first_gid, tile_count, l, l.height as int);
}

proof fn lemma_rows_in_tileset(first_gid: u32, tile_count: u32, l: LayerView, m: int)
    ensures
        forall|i: int| 0 <= i < rows_placements(first_gid, tile_count, l, m).len() ==> {
            let p = #[trigger] rows_placements(first_gid, tile_count, l, m)[i];
            p.tile_index < tile_count
        },
    decreases m,
{
    if m > 0 {
        lemma_rows_in_tileset(first_gid, tile_count, l, m - 1);
        lemma_row_in_tileset(first_gid, tile_count, l, m - 1, l.width as int);
        let a = rows_placements(first_gid, tile_count, l, m - 1);
        let b = row_placements(first_gid, tile_count, l, m - 1, l.width as int);
        assert forall|i: int| 0 <= i < (a + b).len() implies {
            let p = #[trigger] (a + b)[i];
            p.tile_index < tile_count
        } by {
            if i >= a.len() {
                assert((a + b)[i] == b[i - a.len()]);
            }
        }
    }
}

proof fn lemma_row_in_tileset(first_gid: u32, tile_count: u32, l: LayerView, y: int, n: int)
    requires
        n <= l.width,
    ensures
        forall|i: int| 0 <= i < row_placements(first_gid, tile_count, l, y, n).len() ==> {
            let p = #[trigger] row_placements(first_gid, tile_count, l, y, n)[i];
            p.tile_index < tile_count
        },
    decreases n,
{
    if n > 0 {
        lemma_row_in_tileset(first_gid, tile_count, l, y, n - 1);
        let prev = row_placements(first_gid, tile_count, l, y, n - 1);
        if let Some(p) = cell_placement(first_gid, tile_count, l, n - 1, y) {
            assert forall|i: int| 0 <= i < prev.push(p).len() implies (#[trigger] prev.push(p)[i]).tile_index < tile_count by {
                if i < prev.len() {
                    assert(prev.push(p)[i] == prev[i]);
                }
            }
        }
    }
}

/// The placement `p` comes from a cell of layer `l`: column `p.x`, row `l.height - p.y` from
/// the top. Its flips are the three high bits of that cell's raw tile id (horizontal, vertical,
/// diagonal, from the top bit down), and its tile index is the rest of the id less `first_gid`,
/// which falls among the `tile_count` tiles.
pub open spec fn placed_from_cell(first_gid: u32, tile_count: u32, l: LayerView, p: TilePlacement) -> bool {
    let row = l.height - p.y;
    &&& 0 <= p.x < l.width
    &&& 0 <= row < l.height
    &&& {
        let raw = l.tile_data[row * l.width + p.x];
        &&& p.flipped_horizontally == (raw & 0x8000_0000u32 != 0)
        &&& p.flipped_vertically == (raw & 0x4000_0000u32 != 0)
        &&& p.flipped_diagonally == (raw & 0x2000_0000u32 != 0)
        &&& p.tile_index + first_gid == (raw & 0x1fff_ffffu32)
        &&& p.tile_index < tile_count
    }
}

proof fn lemma_cell_is_placed_from_it(first_gid: u32, tile_count: u32, l: LayerView, x: int, y: int)
    requires
        0 <= x < l.width,
        0 <= y < l.height,
        l.width <= i32::MAX,
        l.height <= i32::MAX,
    ensures
        cell_placement(first_gid, tile_count, l, x, y) matches Some(p) ==> placed_from_cell(first_gid, tile_count, l, p),
{
    let raw = l.tile_data[y * l.width + x];
    assert(raw & !(0x2000_0000u32 | 0x4000_0000u32 | 0x8000_0000u32) == raw & 0x1fff_ffffu32) by (bit_vector);
}

proof fn lemma_row_placed_from_cells(first_gid: u32, tile_count: u32, l: LayerView, y: int, n: int)
    requires
        n <= l.width,
        0 <= y < l.height,
        l.width <= i32::MAX,
        l.height <= i32::MAX,
    ensures
        forall|i: int| 0 <= i < row_placements(first_gid, tile_count, l, y, n).len()
            ==> placed_from_cell(first_gid, tile_count, l, #[trigger] row_placements(first_gid, tile_count, l, y, n)[i]),
    decreases n,
{
    if n > 0 {
        lemma_row_placed_from_cells(first_gid, tile_count, l, y, n - 1);
        lemma_cell_is_placed_from_it(first_gid, tile_count, l, n - 1, y);
        let prev = row_placements(first_gid, tile_count, l, y, n - 1);
        if let Some(p) = cell_placement(first_gid, tile_count, l, n - 1, y) {
            assert forall|i: int| 0 <= i < prev.push(p).len() implies placed_from_cell(first_gid, tile_count, l, #[trigger] prev.push(p)[i]) by {
                if i < prev.len() {
                    assert(prev.push(p)[i] == prev[i]);
                }
            }
        }
    }
}

proof fn lemma_rows_placed_from_cells(first_gid: u32, tile_count: u32, l: LayerView, m: int)
    requires
        m <= l.height,
        l.width <= i32::MAX,
        l.height <= i32::MAX,
    ensures
        forall|i: int| 0 <= i < rows_placements(first_gid, tile_count, l, m).len()
            ==> placed_from_cell(first_gid, tile_count, l, #[trigger] rows_placements(first_gid, tile_count, l, m)[i]),
    decreases m,
{
    if m > 0 {
        lemma_rows_placed_from_cells(first_gid, tile_count, l, m - 1);
        lemma_row_placed_from_cells(first_gid, tile_count, l, m - 1, l.width as int);
        let a = rows_placements(first_gid, tile_count, l, m - 1);
        let b = row_placements(first_gid, tile_count, l, m - 1, l.width as int);
        assert forall|i: int| 0 <= i < (a + b).len() implies placed_from_cell(first_gid, tile_count, l, #[trigger] (a + b)[i]) by {
            if i >= a.len() {
                assert((a + b)[i] == b[i - a.len()]);
            } else {
                assert((a + b)[i] == a[i]);
            }
        }
    }
}

/// Every placement of a layer comes from one of its cells: at that cell's position, flipped
/// exactly as the three flag bits of the cell's raw tile id say, and naming the tile that the
/// rest of the id names (when the layer's sides fit an `i32`, as the placement's coordinates do).
pub proof fn lemma_placements_from_cells(first_gid: u32, tile_count: u32, l: LayerView)
    requires
        l.width <= i32::MAX,
        l.height <= i32::MAX,
    ensures
        forall|i: int| 0 <= i < layer_placements(first_gid, tile_count, l).len()
            ==> placed_from_cell(first_gid, tile_count, l, #[trigger] layer_placements(first_gid, tile_count, l)[i]),
{
    lemma_rows_placed_from_cells(first_gid, tile_count, l, l.height as int);
}

/// Whether the cell at column `x`, row `y` from the top holds a tile id (flags cleared) that
/// names one of the `tile_count` tiles from `first_gid` on.
pub open spec fn cell_names_tile(first_gid: u32, tile_count: u32, l: LayerView, x: int, y: int) -> bool {
    let id = l.tile_data[y * l.width + x] & 0x1fff_ffffu32;
    first_gid <= id < first_gid + tile_count
}

proof fn lemma_row_covers_cells(first_gid: u32, tile_count: u32, l: LayerView, y: int, n: int, x: int)
    requires
        0 <= x < n <= l.width,
        0 <= y < l.height,
        l.width <= i32::MAX,
        l.height <= i32::MAX,
        cell_names_tile(first_gid, tile_count, l, x, y),
        l.tile_data.len() == l.width * l.height,
    ensures
        exists|i: int| 0 <= i < row_placements(first_gid, tile_count, l, y, n).len()
            && (#[trigger] row_placements(first_gid, tile_count, l, y, n)[i]).x == x
            && row_placements(first_gid, tile_count, l, y, n)[i].y == l.height - y,
    decreases n,
{
    let prev = row_placements(first_gid, tile_count, l, y, n - 1);
    if x < n - 1 {
        lemma_row_covers_cells(first_gid, tile_count, l, y, n - 1, x);
        let i = choose|i: int| 0 <= i < prev.len() && (#[trigger] prev[i]).x == x && prev[i].y == l.height - y;
        let full = row_placements(first_gid, tile_count, l, y, n);
        if let Some(p) = cell_placement(first_gid, tile_count, l, n - 1, y) {
            assert(full == prev.push(p));
            assert(prev.push(p)[i] == prev[i]);
        } else {
            assert(full == prev);
        }
        assert(full[i].x == x && full[i].y == l.height - y);
    } else {
        let raw = l.tile_data[y * l.width + x];
        assert(raw & !(0x2000_0000u32 | 0x4000_0000u32 | 0x8000_0000u32) == raw & 0x1fff_ffffu32) by (bit_vector);
        let full = row_placements(first_gid, tile_count, l, y, n);
        assert(cell_placement(first_gid, tile_count, l, n - 1, y) is Some);
        let p = cell_placement(first_gid, tile_count, l, n - 1, y)->0;
        assert(full == prev.push(p));
        assert(full[prev.len() as int] == p);
        assert(full[prev.len() as int].x == x && full[prev.len() as int].y == l.height - y);
    }
}

proof fn lemma_rows_cover_cells(first_gid: u32, tile_count: u32, l: LayerView, m: int, x: int, y: int)
    requires
        0 <= x < l.width,
        0 <= y < m <= l.height,
        l.width <= i32::MAX,
        l.height <= i32::MAX,
        cell_names_tile(first_gid, tile_count, l, x, y),
        l.tile_data.len() == l.width * l.height,
    ensures
        exists|i: int| 0 <= i < rows_placements(first_gid, tile_count, l, m).len()
            && (#[trigger] rows_placements(first_gid, tile_count, l, m)[i]).x == x
            && rows_placements(first_gid, tile_count, l, m)[i].y == l.height - y,
    decreases m,
{
    let a = rows_placements(first_gid, tile_count, l, m - 1);
    let b = row_placements(first_gid, tile_count, l, m - 1, l.width as int);
    if y < m - 1 {
        lemma_rows_cover_cells(first_gid, tile_count, l, m - 1, x, y);
        let i = choose|i: int| 0 <= i < a.len() && (#[trigger] a[i]).x == x && a[i].y == l.height - y;
        let full = rows_placements(first_gid, tile_count, l, m);
        assert(full == a + b);
        assert(full[i] == a[i]);
    } else {
        lemma_row_covers_cells(first_gid, tile_count, l, m - 1, l.width as int, x);
        let i = choose|i: int| 0 <= i < b.len() && (#[trigger] b[i]).x == x && b[i].y == l.height - y;
        let full = rows_placements(first_gid, tile_count, l, m);
        assert(full == a + b);
        assert(full[a.len() + i] == b[i]);
    }
}

/// Every cell whose tile id names a tile of the tileset gets a placement at its position.
pub proof fn lemma_cells_get_placed(first_gid: u32, tile_count: u32, l: LayerView, x: int, y: int)
    requires
        0 <= x < l.width,
        0 <= y < l.height,
        l.width <= i32::MAX,
        l.height <= i32::MAX,
        cell_names_tile(first_gid, tile_count, l, x, y),
        l.tile_data.len() == l.width * l.height,
    ensures
        exists|i: int| 0 <= i < layer_placements(first_gid, tile_count, l).len()
            && (#[trigger] layer_placements(first_gid, tile_count, l)[i]).x == x
            && layer_placements(first_gid, tile_count, l)[i].y == l.height - y,
{
    lemma_rows_cover_cells(first_gid, tile_count, l, l.height as int, x, y);
    let all = rows_placements(first_gid, tile_count, l, l.height as int);
    assert(layer_placements(first_gid, tile_count, l) == all);
    let i = choose|i: int| 0 <= i < all.len() && (#[trigger] all[i]).x == x && all[i].y == l.height - y;
    assert(layer_placements(first_gid, tile_count, l)[i].x == x);
}

/// The value of the last attribute called `name` among `attrs`.
pub open spec fn last_attr_value(attrs: Seq<XmlAttribute>, name: Seq<char>) -> Option<Seq<char>>
    decreases attrs.len(),
{
    if attrs.len() == 0 {
        None
    } else if attrs.last().name@ == name {
        Some(attrs.last().value@)
    } else {
        last_attr_value(attrs.drop_last(), name)
    }
}

/// The value of the last attribute called `name` on any start tag of an `element`, in document
/// order.
pub open spec fn last_element_attr(items: Seq<XmlItem>, element: Seq<char>, name: Seq<char>) -> Option<Seq<char>>
    decreases items.len(),
{
    if items.len() == 0 {
        None
    } else {
        let earlier = last_element_attr(items.drop_last(), element, name);
        match items.last() {
            XmlItem::StartElement { name: e, attributes } => if e@ == element {
                match last_attr_value(attributes@, name) {
                    Some(v) => Some(v),
                    None => earlier,
                }
            } else {
                earlier
            },
            _ => earlier,
        }
    }
}

/// A text read as a `u32`, if there is a text.
pub open spec fn opt_u32(text: Option<Seq<char>>) -> Option<u32> {
    match text {
        Some(v) => spec_parse_u32(v),
        None => None,
    }
}

proof fn lemma_attr_names_differ()
    ensures
        "width"@ != "height"@,
        "width"@ != "tilewidth"@,
        "width"@ != "tileheight"@,
        "height"@ != "tilewidth"@,
        "height"@ != "tileheight"@,
        "tilewidth"@ != "tileheight"@,
        "source"@ != "firstgid"@,
        "map"@ != "tileset"@,
        "map"@ != "layer"@,
        "map"@ != "data"@,
        "tileset"@ != "layer"@,
        "tileset"@ != "data"@,
{
    reveal_strlit("width");
    reveal_strlit("height");
    reveal_strlit("tilewidth");
    reveal_strlit("tileheight");
    reveal_strlit("source");
    reveal_strlit("firstgid");
    reveal_strlit("map");
    reveal_strlit("tileset");
    reveal_strlit("layer");
    reveal_strlit("data");
    assert("width"@.len() != "height"@.len());
    assert("width"@.len() != "tilewidth"@.len());
    assert("width"@.len() != "tileheight"@.len());
    assert("height"@.len() != "tilewidth"@.len());
    assert("height"@.len() != "tileheight"@.len());
    assert("tilewidth"@[4] != "tileheight"@[4]);
    assert("source"@.len() != "firstgid"@.len());
    assert("map"@.len() != "tileset"@.len());
    assert("map"@.len() != "layer"@.len());
    assert("map"@.len() != "data"@.len());
    assert("tileset"@.len() != "layer"@.len());
    assert("tileset"@.len() != "data"@.len());
}

proof fn lemma_map_attrs_fields(st: TmxState, attrs: Seq<XmlAttribute>)
    ensures
        map_attrs(st, attrs) matches Ok(s) ==> {
            &&& s.width == match last_attr_value(attrs, "width"@) { Some(v) => spec_parse_u32(v), None => st.width }
            &&& s.height == match last_attr_value(attrs, "height"@) { Some(v) => spec_parse_u32(v), None => st.height }
            &&& s.tile_width == match last_attr_value(attrs, "tilewidth"@) { Some(v) => spec_parse_u32(v), None => st.tile_width }
            &&& s.tile_height == match last_attr_value(attrs, "tileheight"@) { Some(v) => spec_parse_u32(v), None => st.tile_height }
            &&& s.tileset_source == st.tileset_source
            &&& s.first_gid == st.first_gid
        },
    decreases attrs.len(),
{
    lemma_attr_names_differ();
    if attrs.len() > 0 {
        lemma_map_attrs_fields(st, attrs.drop_last());
    }
}

proof fn lemma_tileset_attrs_fields(st: TmxState, attrs: Seq<XmlAttribute>)
    ensures
        tileset_attrs(st, attrs) matches Ok(s) ==> {
            &&& s.tileset_source == match last_attr_value(attrs, "source"@) { Some(v) => Some(v), None => st.tileset_source }
            &&& s.first_gid == match last_attr_value(attrs, "firstgid"@) { Some(v) => spec_parse_u32(v), None => st.first_gid }
            &&& s.width == st.width
            &&& s.height == st.height
            &&& s.tile_width == st.tile_width
            &&& s.tile_height == st.tile_height
        },
    decreases attrs.len(),
{
    lemma_attr_names_differ();
    if attrs.len() > 0 {
        lemma_tileset_attrs_fields(st, attrs.drop_last());
    }
}

/// What the loader's state holds of the map's and the tileset's attributes after some events.
pub open spec fn attrs_read(st: TmxState, items: Seq<XmlItem>) -> bool {
    &&& st.width == opt_u32(last_element_attr(items, "map"@, "width"@))
    &&& st.height == opt_u32(last_element_attr(items, "map"@, "height"@))
    &&& st.tile_width == opt_u32(last_element_attr(items, "map"@, "tilewidth"@))
    &&& st.tile_height == opt_u32(last_element_attr(items, "map"@, "tileheight"@))
    &&& st.tileset_source == last_element_attr(items, "tileset"@, "source"@)
    &&& st.first_gid == opt_u32(last_element_attr(items, "tileset"@, "firstgid"@))
}

proof fn lemma_run_reads_attrs(items: Seq<XmlItem>)
    ensures
        tmx_run(items) matches Ok(st) ==> attrs_read(st, items),
    decreases items.len(),
{
    lemma_attr_names_differ();
    if items.len() > 0 {
        let prefix = items.drop_last();
        lemma_run_reads_attrs(prefix);
        assert(tmx_run(prefix) == fold_steps(tmx_initial(), prefix, tmx_stepper()));
        if let Ok(st) = tmx_run(prefix) {
            match items.last() {
                XmlItem::StartElement { name, attributes } => {
                    lemma_map_attrs_fields(st, attributes@);
                    lemma_tileset_attrs_fields(st, attributes@);
                },
                _ => {},
            }
        }
    }
}

/// A loaded map's size, tile size and tileset are the values of the last `width`, `height`,
/// `tilewidth` and `tileheight` attributes of the document's `<map>` tags and of the last
/// `source` and `firstgid` attributes of its `<tileset>` tags, each read as a number where it
/// is one.
pub proof fn lemma_loaded_map_attributes(items: Seq<XmlItem>)
    ensures
        spec_map_from_items(items) matches Ok(m) ==> {
            &&& opt_u32(last_element_attr(items, "map"@, "width"@)) == Some(m.width)
            &&& opt_u32(last_element_attr(items, "map"@, "height"@)) == Some(m.height)
            &&& opt_u32(last_element_attr(items, "map"@, "tilewidth"@)) == Some(m.tile_width)
            &&& opt_u32(last_element_attr(items, "map"@, "tileheight"@)) == Some(m.tile_height)
            &&& last_element_attr(items, "tileset"@, "source"@) == Some(m.tileset_source)
            &&& opt_u32(last_element_attr(items, "tileset"@, "firstgid"@)) == Some(m.tileset_first_gid)
        },
{
    lemma_run_reads_attrs(items);
}

proof fn lemma_layer_attr_names_differ()
    ensures
        "id"@ != "width"@,
        "id"@ != "height"@,
        "id"@ != "name"@,
        "width"@ != "height"@,
        "width"@ != "name"@,
        "height"@ != "name"@,
{
    reveal_strlit("id");
    reveal_strlit("width");
    reveal_strlit("height");
    reveal_strlit("name");
    assert("id"@.len() != "width"@.len());
    assert("id"@.len() != "height"@.len());
    assert("id"@.len() != "name"@.len());
    assert("width"@.len() != "height"@.len());
    assert("width"@.len() != "name"@.len());
    assert("height"@.len() != "name"@.len());
}

/// The layer that a `<layer>` tag's attributes describe has the id, width, height and name of
/// its last `id`, `width`, `height` and `name` attributes (read as numbers), and keeps the
/// defaults (no id, no size, no name) for those it lacks; it holds no tiles yet. The layer that
/// the tag opens in the loader is that layer.
pub proof fn lemma_layer_attributes(st: TmxState, attrs: Seq<XmlAttribute>)
    ensures
        layer_attrs(default_layer(), attrs) matches Ok(l) ==> {
            &&& l.id == match last_attr_value(attrs, "id"@) { Some(v) => spec_parse_i32(v)->0, None => -1i32 }
            &&& last_attr_value(attrs, "id"@) matches Some(v) ==> spec_parse_i32(v) is Some
            &&& l.width == match last_attr_value(attrs, "width"@) { Some(v) => spec_parse_u32(v)->0, None => 0u32 }
            &&& last_attr_value(attrs, "width"@) matches Some(v) ==> spec_parse_u32(v) is Some
            &&& l.height == match last_attr_value(attrs, "height"@) { Some(v) => spec_parse_u32(v)->0, None => 0u32 }
            &&& last_attr_value(attrs, "height"@) matches Some(v) ==> spec_parse_u32(v) is Some
            &&& l.name == match last_attr_value(attrs, "name"@) { Some(v) => v, None => Seq::<char>::empty() }
            &&& l.tile_data.len() == 0
        },
        layer_start(st, attrs) matches Ok(s) ==> s.current_layer == Some(layer_attrs(default_layer(), attrs)->Ok_0),
{
    lemma_layer_attrs_fields(attrs);
}

proof fn lemma_layer_attrs_fields(attrs: Seq<XmlAttribute>)
    ensures
        layer_attrs(default_layer(), attrs) matches Ok(l) ==> {
            &&& l.id == match last_attr_value(attrs, "id"@) { Some(v) => spec_parse_i32(v)->0, None => -1i32 }
            &&& last_attr_value(attrs, "id"@) matches Some(v) ==> spec_parse_i32(v) is Some
            &&& l.width == match last_attr_value(attrs, "width"@) { Some(v) => spec_parse_u32(v)->0, None => 0u32 }
            &&& last_attr_value(attrs, "width"@) matches Some(v) ==> spec_parse_u32(v) is Some
            &&& l.height == match last_attr_value(attrs, "height"@) { Some(v) => spec_parse_u32(v)->0, None => 0u32 }
            &&& last_attr_value(attrs, "height"@) matches Some(v) ==> spec_parse_u32(v) is Some
            &&& l.name == match last_attr_value(attrs, "name"@) { Some(v) => v, None => Seq::<char>::empty() }
            &&& l.tile_data.len() == 0
        },
    decreases attrs.len(),
{
    lemma_layer_attr_names_differ();
    if attrs.len() > 0 {
        lemma_layer_attrs_fields(attrs.drop_last());
    }
}

} // verus!
