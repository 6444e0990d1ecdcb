//! Surface capabilities as the negotiation sees them, and the format
//! selection policy over them.

use vstd::prelude::*;

verus! {

/// A surface texture format as the negotiation sees it: an opaque
/// identifying code assigned by the caller (for instance the format's index
/// in the capability list it came from) together with whether the format is
/// sRGB-encoded — the one property the selection policy reads.
#[derive(Clone, Copy, Debug, PartialEq, Eq, Structural)]
pub struct TextureFormat {
    /// Caller-assigned identity of the underlying format.
    pub code: u32,
    /// Whether the format is sRGB-encoded.
    pub srgb: bool,
}

/// A present mode offered for a surface, identified by a caller-assigned
/// code (for instance its index in the capability list).  The negotiation
/// never reads anything of a present mode but its identity.
#[derive(Clone, Copy, Debug, PartialEq, Eq, Structural)]
pub struct PresentMode {
    /// Caller-assigned identity of the underlying present mode.
    pub code: u32,
}

/// An alpha compositing mode offered for a surface, identified by a
/// caller-assigned code, read only for its identity.
#[derive(Clone, Copy, Debug, PartialEq, Eq, Structural)]
pub struct AlphaMode {
    /// Caller-assigned identity of the underlying alpha mode.
    pub code: u32,
}

/// What the adapter reports as supported for a surface: the formats,
/// present modes and alpha modes the surface can be configured with,
/// each list in the order the adapter offered them.
#[derive(Clone, Debug)]
pub struct SurfaceCapabilities {
    /// Supported texture formats, in offered order.
    pub formats: Vec<TextureFormat>,
    /// Supported present modes, in offered order.
    pub present_modes: Vec<PresentMode>,
    /// Supported alpha compositing modes, in offered order.
    pub alpha_modes: Vec<AlphaMode>,
}

impl SurfaceCapabilities {
    /// A capability report a surface can actually be configured from:
    /// none of the three lists is empty.
    pub open spec fn well_formed(&self) -> bool {
        &&& self.formats@.len() > 0
        &&& self.present_modes@.len() > 0
        &&& self.alpha_modes@.len() > 0
    }

    /// Whether this report is well formed (see [`Self::well_formed`]).
    pub fn is_well_formed(&self) -> (r: bool)
        ensures
            r == self.well_formed(),
    {
        self.formats.len() > 0 && self.present_modes.len() > 0 && self.alpha_modes.len() > 0
    }
}

/// Whether some format in `s` is sRGB-encoded.
pub open spec fn has_srgb(s: Seq<TextureFormat>) -> bool {
    exists|i: int| 0 <= i < s.len() && s[i].srgb
}

/// Index of the first sRGB-encoded format of `s`
/// (meaningful only when `has_srgb(s)`).
pub open spec fn first_srgb_index(s: Seq<TextureFormat>) -> int
    decreases s.len(),
{
    if s.len() == 0 {
        0
    } else if s[0].srgb {
        0
    } else {
        1 + first_srgb_index(s.drop_first())
    }
}

/// The sRGB-encoded formats of `s`, in their original order.
pub open spec fn srgb_formats(s: Seq<TextureFormat>) -> Seq<TextureFormat>
    decreases s.len(),
{
    if s.len() == 0 {
        Seq::empty()
    } else if s[0].srgb {
        seq![s[0]] + srgb_formats(s.drop_first())
    } else {
        srgb_formats(s.drop_first())
    }
}

/// The format the negotiation selects from an ordered capability list:
/// the first sRGB-encoded entry, or, when no entry is sRGB-encoded, the
/// first entry of the list.
pub open spec fn spec_selected_format(s: Seq<TextureFormat>) -> TextureFormat {
    if has_srgb(s) {
        s[first_srgb_index(s)]
    } else {
        s[0]
    }
}

proof fn lemma_has_srgb_drop_first(s: Seq<TextureFormat>)
    requires
        s.len() > 0,
        !s[0].srgb,
    ensures
        has_srgb(s) == has_srgb(s.drop_first()),
{
    if has_srgb(s) {
        let i = choose|i: int| 0 <= i < s.len() && s[i].srgb;
        assert(s.drop_first()[i - 1] == s[i]);
        assert(has_srgb(s.drop_first()));
    }
    if has_srgb(s.drop_first()) {
        let i = choose|i: int| 0 <= i < s.drop_first().len() && s.drop_first()[i].srgb;
        assert(s[i + 1] == s.drop_first()[i]);
        assert(has_srgb(s));
    }
}

proof fn lemma_first_srgb_index_properties(s: Seq<TextureFormat>)
    requires
        has_srgb(s),
    ensures
        0 <= first_srgb_index(s) < s.len(),
        s[first_srgb_index(s)].srgb,
        forall|j: int| 0 <= j < first_srgb_index(s) ==> !s[j].srgb,
    decreases s.len(),
{
    if !s[0].srgb {
        lemma_has_srgb_drop_first(s);
        lemma_first_srgb_index_properties(s.drop_first());
        assert forall|j: int| 0 <= j < first_srgb_index(s) implies !s[j].srgb by {
            if j > 0 {
                assert(s.drop_first()[j - 1] == s[j]);
            }
        }
    }
}

/// How many sRGB-encoded formats `s` holds, as the subsequence's length:
/// the subsequence is non-empty exactly when some format is sRGB-encoded.
pub proof fn lemma_srgb_formats_nonempty(s: Seq<TextureFormat>)
    ensures
        has_srgb(s) == (srgb_formats(s).len() > 0),
    decreases s.len(),
{
    if s.len() == 0 {
        assert(!has_srgb(s));
    } else if s[0].srgb {
        assert(has_srgb(s));
    } else {
        lemma_has_srgb_drop_first(s);
        lemma_srgb_formats_nonempty(s.drop_first());
    }
}

/// Format selection law, sRGB half: when at least one format of the list is
/// sRGB-encoded, the selected format is the first element of the list's
/// sRGB subsequence — the first sRGB-encoded format in list order.
pub proof fn lemma_selected_format_is_first_srgb(s: Seq<TextureFormat>)
    requires
        s.len() > 0,
        has_srgb(s),
    ensures
        spec_selected_format(s) == srgb_formats(s)[0],
        spec_selected_format(s).srgb,
        0 <= first_srgb_index(s) < s.len(),
        spec_selected_format(s) == s[first_srgb_index(s)],
        forall|j: int| 0 <= j < first_srgb_index(s) ==> !s[j].srgb,
    decreases s.len(),
{
    lemma_first_srgb_index_properties(s);
    if s[0].srgb {
        assert(srgb_formats(s)[0] == s[0]);
    } else {
        lemma_has_srgb_drop_first(s);
        lemma_selected_format_is_first_srgb(s.drop_first());
        assert(s.drop_first()[first_srgb_index(s.drop_first())]
            == s[1 + first_srgb_index(s.drop_first())]);
    }
}

/// Format selection law, fallback half: when no format of the list is
/// sRGB-encoded, the selected format is the list's first element.
pub proof fn lemma_selected_format_fallback(s: Seq<TextureFormat>)
    requires
        s.len() > 0,
        !has_srgb(s),
    ensures
        spec_selected_format(s) == s[0],
{
}

/// Format selection law, order independence: two capability lists whose
/// sRGB subsequences are the same non-empty sequence select the same format,
/// however the lists order their remaining entries.
pub proof fn lemma_selection_depends_only_on_srgb_order(
    s: Seq<TextureFormat>,
    t: Seq<TextureFormat>,
)
    requires
        s.len() > 0,
        t.len() > 0,
        has_srgb(s),
        srgb_formats(s) == srgb_formats(t),
    ensures
        spec_selected_format(s) == spec_selected_format(t),
{
    lemma_srgb_formats_nonempty(s);
    lemma_srgb_formats_nonempty(t);
    lemma_selected_format_is_first_srgb(s);
    lemma_selected_format_is_first_srgb(t);
}

/// Select the surface format from an ordered capability list: the first
/// sRGB-encoded format, falling back to the list's first entry when none
/// is sRGB-encoded.
pub fn select_surface_format(formats: &Vec<TextureFormat>) -> (r: TextureFormat)
    requires
        formats@.len() > 0,
    ensures
        r == spec_selected_format(formats@),
{
    let n = formats.len();
    let mut i: usize = 0;
    while i < n
        invariant
            n == formats@.len(),
            i <= n,
            forall|j: int| 0 <= j < i ==> !formats@[j].srgb,
        decreases n - i,
    {
        if formats[i].srgb {
            proof {
                assert(has_srgb(formats@));
                lemma_first_srgb_index_properties(formats@);
                let k = first_srgb_index(formats@);
                if k < i {
                    assert(!formats@[k].srgb);
                }
                if i < k {
                    assert(!formats@[i as int].srgb);
                }
                assert(k == i);
            }
            return formats[i];
        }
        i += 1;
    }
    proof {
        assert(!has_srgb(formats@));
    }
    formats[0]
}

} // verus!
