use vstd::prelude::*;
use crate::chars::str_eq;
use crate::vowel::{vowel_index, vowel_settings_key, Vowel};

verus! {

/// One image layer of the source.
#[derive(Debug, Clone, Copy, PartialEq, Eq, Structural)]
pub enum Layer {
    /// Shown while silent, and under everything else when kept visible.
    Idle,
    /// Shown while talking.
    Speaking,
    /// Shown while talking and this vowel is heard.
    Vowel(Vowel),
    /// Shown on top of everything else.
    Overlay,
}

/// Position of a layer's image among the source's eight images.
pub open spec fn layer_slot(layer: Layer) -> int {
    match layer {
        Layer::Idle => 0,
        Layer::Speaking => 1,
        Layer::Vowel(v) => 2 + vowel_index(v) as int,
        Layer::Overlay => 7,
    }
}

/// The settings key under which a layer's image path is stored.
pub open spec fn layer_settings_key(layer: Layer) -> Seq<char> {
    match layer {
        Layer::Idle => "idle_image"@,
        Layer::Speaking => "speaking_image"@,
        Layer::Vowel(v) => vowel_settings_key(v),
        Layer::Overlay => "overlay_image"@,
    }
}

impl Layer {
    /// The position of the layer's image among the source's eight images.
    pub fn slot(self) -> (r: usize)
        ensures
            r == layer_slot(self),
            r < 8,
    {
        match self {
            Layer::Idle => 0,
            Layer::Speaking => 1,
            Layer::Vowel(v) => 2 + v.index(),
            Layer::Overlay => 7,
        }
    }

    /// The settings key of the layer's image path.
    pub fn settings_key(self) -> (r: &'static str)
        ensures
            r@ == layer_settings_key(self),
    {
        match self {
            Layer::Idle => "idle_image",
            Layer::Speaking => "speaking_image",
            Layer::Vowel(v) => v.settings_key(),
            Layer::Overlay => "overlay_image",
        }
    }
}

/// The name of the button that clears the image setting `key`.
pub fn clear_button_name(key: &str) -> (name: String)
    ensures
        name@ == key@ + "_clear_btn"@,
{
    let mut name = String::from_str(key);
    name.append("_clear_btn");
    name
}

/// The images of the source's layers, each with the path it was loaded
/// from.
pub struct AvatarImages<A> {
    paths: [String; 8],
    assets: [Option<A>; 8],
}

impl<A> AvatarImages<A> {
    /// The path a layer's image was loaded from.
    pub closed spec fn path_of(self, layer: Layer) -> Seq<char> {
        self.paths@[layer_slot(layer)]@
    }

    /// The image of a layer, if one is loaded.
    pub closed spec fn asset_of(self, layer: Layer) -> Option<A> {
        self.assets@[layer_slot(layer)]
    }

    /// A layer has an image.
    pub open spec fn present(self, layer: Layer) -> bool {
        self.asset_of(layer) is Some
    }

    /// The layer shown while talking: the heard vowel's when vowel shapes
    /// are enabled and that vowel has an image, otherwise the speaking
    /// image, if there is one.
    pub open spec fn talking_layer_spec(self, vowel: Option<Vowel>, vowel_enabled: bool) -> Option<Layer> {
        if vowel_enabled && vowel is Some && self.present(Layer::Vowel(vowel->0)) {
            Some(Layer::Vowel(vowel->0))
        } else if self.present(Layer::Speaking) {
            Some(Layer::Speaking)
        } else {
            None
        }
    }

    /// The layers drawn in a frame, bottom first: when the idle image is
    /// kept visible, the idle image and, while talking, the talking layer
    /// on top of it; otherwise the talking layer while talking and the idle
    /// image while silent; and last the overlay. Layers without an image
    /// are left out.
    pub open spec fn draw_order_spec(
        self,
        talking: bool,
        keep_idle_visible: bool,
        vowel: Option<Vowel>,
        vowel_enabled: bool,
    ) -> Seq<Layer> {
        let idle = if self.present(Layer::Idle) {
            seq![Layer::Idle]
        } else {
            Seq::empty()
        };
        let talk = match self.talking_layer_spec(vowel, vowel_enabled) {
            Some(l) => seq![l],
            None => Seq::empty(),
        };
        let base = if keep_idle_visible {
            if talking {
                idle + talk
            } else {
                idle
            }
        } else if talking {
            talk
        } else {
            idle
        };
        let overlay = if self.present(Layer::Overlay) {
            seq![Layer::Overlay]
        } else {
            Seq::empty()
        };
        base + overlay
    }

    /// No images, every path empty.
    pub fn new() -> (images: Self)
        ensures
            forall|l: Layer| #[trigger] images.path_of(l) == Seq::<char>::empty(),
            forall|l: Layer| #[trigger] images.asset_of(l) is None,
    {
        let paths = [
            String::new(),
            String::new(),
            String::new(),
            String::new(),
            String::new(),
            String::new(),
            String::new(),
            String::new(),
        ];
        let assets = [None, None, None, None, None, None, None, None];
        let images = AvatarImages { paths, assets };
        assert forall|l: Layer| #[trigger] images.path_of(l) == Seq::<char>::empty() by {
            assert(0 <= layer_slot(l) < 8);
        }
        assert forall|l: Layer| #[trigger] images.asset_of(l) is None by {
            assert(0 <= layer_slot(l) < 8);
        }
        images
    }

    /// The path a layer's image was loaded from.
    pub fn path(&self, layer: Layer) -> (p: &String)
        ensures
            p@ == self.path_of(layer),
    {
        &self.paths[layer.slot()]
    }

    /// The image of a layer, if one is loaded.
    pub fn asset(&self, layer: Layer) -> (a: Option<&A>)
        ensures
            a matches Some(x) ==> self.asset_of(layer) == Some(*x),
            a is None <==> self.asset_of(layer) is None,
    {
        self.assets[layer.slot()].as_ref()
    }

    /// Whether the layer must be loaded again because its setting now
    /// names another path.
    pub fn needs_reload(&self, layer: Layer, new_path: &String) -> (r: bool)
        ensures
            r == (new_path@ != self.path_of(layer)),
    {
        !str_eq(new_path.as_str(), self.paths[layer.slot()].as_str())
    }

    /// Records that the layer's image is now `asset`, loaded from `path`.
    /// The other layers keep their images and paths.
    pub fn replace(&mut self, layer: Layer, path: String, asset: Option<A>)
        ensures
            final(self).path_of(layer) == path@,
            final(self).asset_of(layer) == asset,
            forall|l: Layer|
                layer_slot(l) != layer_slot(layer) ==> #[trigger] final(self).path_of(l) == old(
                    self,
                ).path_of(l) && final(self).asset_of(l) == old(self).asset_of(l),
    {
        let i = layer.slot();
        self.paths[i] = path;
        self.assets[i] = asset;
    }

    /// The layer shown while talking.
    pub fn talking_layer(&self, vowel: Option<Vowel>, vowel_enabled: bool) -> (r: Option<Layer>)
        ensures
            r == self.talking_layer_spec(vowel, vowel_enabled),
    {
        if vowel_enabled {
            if let Some(v) = vowel {
                if self.assets[Layer::Vowel(v).slot()].is_some() {
                    return Some(Layer::Vowel(v));
                }
            }
        }
        if self.assets[Layer::Speaking.slot()].is_some() {
            Some(Layer::Speaking)
        } else {
            None
        }
    }

    /// The layers drawn in a frame, bottom first.
    pub fn draw_order(&self, talking: bool, keep_idle_visible: bool, vowel: Option<Vowel>, vowel_enabled: bool) -> (layers: Vec<Layer>)
        ensures
            layers@ == self.draw_order_spec(talking, keep_idle_visible, vowel, vowel_enabled),
    {
        let mut layers: Vec<Layer> = Vec::new();
        let has_idle = self.assets[Layer::Idle.slot()].is_some();
        if keep_idle_visible {
            if has_idle {
                layers.push(Layer::Idle);
            }
            if talking {
                if let Some(l) = self.talking_layer(vowel, vowel_enabled) {
                    layers.push(l);
                }
            }
        } else {
            let shown = if talking {
                self.talking_layer(vowel, vowel_enabled)
            } else if has_idle {
                Some(Layer::Idle)
            } else {
                None
            };
            if let Some(l) = shown {
                layers.push(l);
            }
        }
        if self.assets[Layer::Overlay.slot()].is_some() {
            layers.push(Layer::Overlay);
        }
        assert(layers@ =~= self.draw_order_spec(talking, keep_idle_visible, vowel, vowel_enabled));
        layers
    }
}

/// What the source does to its images while talking.
#[derive(Debug, Clone, Copy, PartialEq, Eq, Structural)]
pub enum SpeakingEffect {
    /// The images stay in place.
    Off,
    /// The images shake around their place.
    Shake,
    /// The images bounce upwards.
    Bounce,
}

/// The effect a `when_speaking_effect` setting names: `shake` and `bounce`
/// name those effects, anything else, the empty setting among them, names
/// none.
pub open spec fn effect_of(setting: Seq<char>) -> SpeakingEffect {
    if setting == "shake"@ {
        SpeakingEffect::Shake
    } else if setting == "bounce"@ {
        SpeakingEffect::Bounce
    } else {
        SpeakingEffect::Off
    }
}

/// The setting value under which an effect is offered.
pub open spec fn effect_value(effect: SpeakingEffect) -> Seq<char> {
    match effect {
        SpeakingEffect::Off => "none"@,
        SpeakingEffect::Shake => "shake"@,
        SpeakingEffect::Bounce => "bounce"@,
    }
}

impl SpeakingEffect {
    /// The effect a `when_speaking_effect` setting names.
    pub fn from_setting(setting: &str) -> (effect: SpeakingEffect)
        ensures
            effect == effect_of(setting@),
    {
        if str_eq(setting, "shake") {
            SpeakingEffect::Shake
        } else if str_eq(setting, "bounce") {
            SpeakingEffect::Bounce
        } else {
            SpeakingEffect::Off
        }
    }

    /// The setting value under which the effect is offered.
    pub fn setting_value(self) -> (value: &'static str)
        ensures
            value@ == effect_value(self),
    {
        match self {
            SpeakingEffect::Off => "none",
            SpeakingEffect::Shake => "shake",
            SpeakingEffect::Bounce => "bounce",
        }
    }

    /// Whether the shake intensity and speed controls are shown.
    pub fn shows_shake_controls(self) -> (shown: bool)
        ensures
            shown == (self == SpeakingEffect::Shake),
    {
        match self {
            SpeakingEffect::Shake => true,
            _ => false,
        }
    }

    /// Whether the bounce height and speed controls are shown.
    pub fn shows_bounce_controls(self) -> (shown: bool)
        ensures
            shown == (self == SpeakingEffect::Bounce),
    {
        match self {
            SpeakingEffect::Bounce => true,
            _ => false,
        }
    }
}

/// Every effect offered in the settings dialog is read back as itself.
pub proof fn lemma_effect_round_trip(effect: SpeakingEffect)
    ensures
        effect_of(effect_value(effect)) == effect,
{
    reveal_strlit("none");
    reveal_strlit("shake");
    reveal_strlit("bounce");
    assert("none"@[0] != "shake"@[0]);
    assert("none"@.len() != "bounce"@.len());
    assert("shake"@.len() != "bounce"@.len());
}

/// Default width and height of the source, in pixels.
pub const DEFAULT_DIMENSION: i64 = 512;

/// Smallest width or height the source takes.
pub const MIN_DIMENSION: i64 = 1;

/// Largest width or height the source takes.
pub const MAX_DIMENSION: i64 = 8192;

/// The width or height a setting asks for: the default when unset, and
/// brought into `MIN_DIMENSION..=MAX_DIMENSION`.
pub open spec fn dimension_of(setting: Option<i64>) -> int {
    let v = match setting {
        Some(v) => v as int,
        None => DEFAULT_DIMENSION as int,
    };
    if v < MIN_DIMENSION {
        MIN_DIMENSION as int
    } else if v > MAX_DIMENSION {
        MAX_DIMENSION as int
    } else {
        v
    }
}

/// The width or height the source takes for a `width` or `height` setting.
pub fn dimension_setting(setting: Option<i64>) -> (pixels: u32)
    ensures
        pixels == dimension_of(setting),
        MIN_DIMENSION <= pixels <= MAX_DIMENSION,
{
    let v = match setting {
        Some(v) => v,
        None => DEFAULT_DIMENSION,
    };
    if v < MIN_DIMENSION {
        MIN_DIMENSION as u32
    } else if v > MAX_DIMENSION {
        MAX_DIMENSION as u32
    } else {
        v as u32
    }
}

/// Different layers keep their images in different places, so replacing
/// one layer's image leaves every other layer's.
pub proof fn lemma_layer_slots_distinct(a: Layer, b: Layer)
    requires
        a != b,
    ensures
        layer_slot(a) != layer_slot(b),
{
}

/// Different layers store their image paths under different settings keys.
pub proof fn lemma_layer_keys_distinct(a: Layer, b: Layer)
    requires
        a != b,
    ensures
        layer_settings_key(a) != layer_settings_key(b),
{
    reveal_strlit("idle_image");
    reveal_strlit("speaking_image");
    reveal_strlit("overlay_image");
    reveal_strlit("vowel_a_image");
    reveal_strlit("vowel_e_image");
    reveal_strlit("vowel_i_image");
    reveal_strlit("vowel_o_image");
    reveal_strlit("vowel_u_image");
    let ka = layer_settings_key(a);
    let kb = layer_settings_key(b);
    if ka.len() == kb.len() {
        if ka[0] == kb[0] {
            assert(ka[6] != kb[6]);
        }
    }
}

/// Facts of every frame's draw order: only layers with an image are drawn;
/// the overlay, when it has one, is drawn last, on top of everything; the
/// idle image is drawn exactly when it has an image and the source is
/// silent or keeps it visible; a vowel's image is drawn only while talking
/// with vowel shapes enabled and that vowel heard.
pub proof fn lemma_draw_order_facts<A>(
    images: AvatarImages<A>,
    talking: bool,
    keep_idle_visible: bool,
    vowel: Option<Vowel>,
    vowel_enabled: bool,
)
    ensures
        ({
            let order = images.draw_order_spec(talking, keep_idle_visible, vowel, vowel_enabled);
            &&& forall|i: int| 0 <= i < order.len() ==> images.present(#[trigger] order[i])
            &&& images.present(Layer::Overlay) <==> (order.len() > 0 && order.last() == Layer::Overlay)
            &&& order.contains(Layer::Idle) <==> (images.present(Layer::Idle) && (keep_idle_visible || !talking))
            &&& forall|v: Vowel|
                order.contains(Layer::Vowel(v)) ==> talking && vowel_enabled && vowel == Some(v)
        }),
{
    let order = images.draw_order_spec(talking, keep_idle_visible, vowel, vowel_enabled);
    let tl = images.talking_layer_spec(vowel, vowel_enabled);
    assert forall|i: int| 0 <= i < order.len() implies images.present(#[trigger] order[i]) by {}
    if order.contains(Layer::Idle) {
        let i = choose|i: int| 0 <= i < order.len() && order[i] == Layer::Idle;
    }
    if images.present(Layer::Idle) && (keep_idle_visible || !talking) {
        assert(order[0] == Layer::Idle);
    }
    assert forall|v: Vowel| order.contains(Layer::Vowel(v)) implies talking && vowel_enabled && vowel
        == Some(v) by {
        let i = choose|i: int| 0 <= i < order.len() && order[i] == Layer::Vowel(v);
    }
}

/// The layer shown while talking: the heard vowel's image whenever vowel
/// shapes are enabled and that vowel has an image, whether or not there is
/// a speaking image; otherwise the speaking image, which is only the
/// fallback; and nothing only when neither image is there.
pub proof fn lemma_talking_layer_choice<A>(images: AvatarImages<A>, vowel: Option<Vowel>, vowel_enabled: bool)
    ensures
        ({
            let r = images.talking_layer_spec(vowel, vowel_enabled);
            &&& (vowel_enabled && vowel is Some && images.present(Layer::Vowel(vowel->0)))
                ==> r == Some(Layer::Vowel(vowel->0))
            &&& !(vowel_enabled && vowel is Some && images.present(Layer::Vowel(vowel->0)))
                ==> (r == if images.present(Layer::Speaking) {
                Some(Layer::Speaking)
            } else {
                None
            })
            &&& r is None <==> (!images.present(Layer::Speaking) && !(vowel_enabled && vowel is Some
                && images.present(Layer::Vowel(vowel->0))))
            &&& r matches Some(l) ==> images.present(l)
        }),
{
}

/// While talking, and unless the idle image is kept under it, exactly the
/// talking layer is drawn, with the overlay on top when it has an image.
pub proof fn lemma_talking_draws_talking_layer<A>(images: AvatarImages<A>, vowel: Option<Vowel>, vowel_enabled: bool)
    ensures
        ({
            let order = images.draw_order_spec(true, false, vowel, vowel_enabled);
            let t = images.talking_layer_spec(vowel, vowel_enabled);
            &&& (vowel_enabled && vowel is Some && images.present(Layer::Vowel(vowel->0)))
                ==> order.len() >= 1 && order[0] == Layer::Vowel(vowel->0)
            &&& t matches Some(l) ==> order.len() >= 1 && order[0] == l
            &&& order.len() == (if t is Some { 1int } else { 0 }) + (if images.present(Layer::Overlay) { 1int } else { 0 })
        }),
{
    lemma_talking_layer_choice(images, vowel, vowel_enabled);
}

/// The width or height taken is the one asked for when it lies within
/// `1..=8192`, the nearest bound when it lies outside, and 512 when none is
/// asked for.
pub proof fn lemma_dimension_clamps(setting: Option<i64>)
    ensures
        1 <= dimension_of(setting) <= 8192,
        setting is None ==> dimension_of(setting) == 512,
        setting is Some && 1 <= setting->0 <= 8192 ==> dimension_of(setting) == setting->0,
        setting is Some && setting->0 < 1 ==> dimension_of(setting) == 1,
        setting is Some && setting->0 > 8192 ==> dimension_of(setting) == 8192,
{
}

} // verus!
