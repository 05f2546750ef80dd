//! The dense weather time series of one location.
//!
//! The series is stored column-wise — one vector per field — but its
//! meaning is row-wise: a sequence of whole samples, one per forecast-time
//! slot, which is what the view gives. All columns always have the same
//! length.

use vstd::prelude::*;

use crate::precipitation::PrecipitationType;
use crate::pressure::InHg;
use crate::sample::WxSingle;

verus! {

/// A dense weather time series, one sample per forecast-time slot, stored
/// as one column per field.
#[derive(Clone, Debug)]
pub struct Wx {
    pub dewpoint: Vec<i16>,
    pub gust: Vec<u16>,
    pub lightning: Vec<u16>,
    pub new_precip: Vec<u64>,
    pub precip_rate: Vec<u64>,
    pub precip_type: Vec<PrecipitationType>,
    pub pressure: Vec<InHg>,
    pub temperature: Vec<i16>,
    pub total_cloud_cover: Vec<u16>,
    pub total_precip: Vec<u64>,
    pub total_snow: Vec<u64>,
    pub vis: Vec<u16>,
    pub wind_dir: Vec<u16>,
    pub wind_spd: Vec<u16>,
}

impl Wx {
    /// All columns have the same length.
    pub open spec fn wf(&self) -> bool {
        &&& self.gust@.len() == self.dewpoint@.len()
        &&& self.lightning@.len() == self.dewpoint@.len()
        &&& self.new_precip@.len() == self.dewpoint@.len()
        &&& self.precip_rate@.len() == self.dewpoint@.len()
        &&& self.precip_type@.len() == self.dewpoint@.len()
        &&& self.pressure@.len() == self.dewpoint@.len()
        &&& self.temperature@.len() == self.dewpoint@.len()
        &&& self.total_cloud_cover@.len() == self.dewpoint@.len()
        &&& self.total_precip@.len() == self.dewpoint@.len()
        &&& self.total_snow@.len() == self.dewpoint@.len()
        &&& self.vis@.len() == self.dewpoint@.len()
        &&& self.wind_dir@.len() == self.dewpoint@.len()
        &&& self.wind_spd@.len() == self.dewpoint@.len()
    }

    /// The whole sample at one slot, gathered across the columns.
    pub open spec fn spec_at(&self, i: int) -> WxSingle {
        WxSingle {
            dewpoint: self.dewpoint@[i],
            gust: self.gust@[i],
            lightning: self.lightning@[i],
            new_precip_bits: self.new_precip@[i],
            precip_rate_bits: self.precip_rate@[i],
            precip_type: self.precip_type@[i].bits,
            pressure_micro: self.pressure@[i].micro,
            temperature: self.temperature@[i],
            total_cloud_cover: self.total_cloud_cover@[i],
            total_precip_bits: self.total_precip@[i],
            total_snow_bits: self.total_snow@[i],
            vis: self.vis@[i],
            wind_dir: self.wind_dir@[i],
            wind_spd: self.wind_spd@[i],
        }
    }
}

impl View for Wx {
    type V = Seq<WxSingle>;

    open spec fn view(&self) -> Seq<WxSingle> {
        Seq::new(self.dewpoint@.len(), |i: int| self.spec_at(i))
    }
}

/// A vector of `size` copies of one value.
fn filled<T: Copy>(value: T, size: usize) -> (r: Vec<T>)
    ensures
        r@ =~= Seq::new(size as nat, |i: int| value),
{
    let mut r: Vec<T> = Vec::new();
    let mut n: usize = 0;
    while n < size
        invariant
            n <= size,
            r@ =~= Seq::new(n as nat, |i: int| value),
        decreases size - n,
    {
        r.push(value);
        n = n + 1;
    }
    r
}

impl Wx {
    /// A series of `size` slots, each holding the all-zero sample.
    pub fn new(size: usize) -> (r: Wx)
        ensures
            r.wf(),
            r@ =~= Seq::new(size as nat, |i: int| WxSingle::spec_zero()),
    {
        let r = Wx {
            dewpoint: filled(0i16, size),
            gust: filled(0u16, size),
            lightning: filled(0u16, size),
            new_precip: filled(0u64, size),
            precip_rate: filled(0u64, size),
            precip_type: filled(PrecipitationType { bits: 0 }, size),
            pressure: filled(InHg { micro: 0 }, size),
            temperature: filled(0i16, size),
            total_cloud_cover: filled(0u16, size),
            total_precip: filled(0u64, size),
            total_snow: filled(0u64, size),
            vis: filled(0u16, size),
            wind_dir: filled(0u16, size),
            wind_spd: filled(0u16, size),
        };
        proof {
            assert(r@ =~= Seq::new(size as nat, |i: int| WxSingle::spec_zero()));
        }
        r
    }

    /// The number of slots.
    pub fn length(&self) -> (r: usize)
        ensures
            r == self@.len(),
    {
        self.dewpoint.len()
    }

    /// Scatter one whole sample into the slot at `at`. A slot out of range
    /// is a caller error: the series and the forecast-time axis would be out
    /// of step.
    pub fn add(&mut self, single: &WxSingle, at: usize)
        requires
            old(self).wf(),
            at < old(self)@.len(),
        ensures
            final(self).wf(),
            final(self)@ =~= old(self)@.update(at as int, *single),
    {
        self.dewpoint.set(at, single.dewpoint);
        self.gust.set(at, single.gust);
        self.lightning.set(at, single.lightning);
        self.new_precip.set(at, single.new_precip_bits);
        self.precip_rate.set(at, single.precip_rate_bits);
        self.precip_type.set(at, PrecipitationType { bits: single.precip_type });
        self.pressure.set(at, InHg { micro: single.pressure_micro });
        self.temperature.set(at, single.temperature);
        self.total_cloud_cover.set(at, single.total_cloud_cover);
        self.total_precip.set(at, single.total_precip_bits);
        self.total_snow.set(at, single.total_snow_bits);
        self.vis.set(at, single.vis);
        self.wind_dir.set(at, single.wind_dir);
        self.wind_spd.set(at, single.wind_spd);
    }

    /// Grow the series by one slot holding the all-zero sample.
    pub fn push_zero(&mut self)
        requires
            old(self).wf(),
        ensures
            final(self).wf(),
            final(self)@ =~= old(self)@.push(WxSingle::spec_zero()),
    {
        self.dewpoint.push(0);
        self.gust.push(0);
        self.lightning.push(0);
        self.new_precip.push(0);
        self.precip_rate.push(0);
        self.precip_type.push(PrecipitationType { bits: 0 });
        self.pressure.push(InHg { micro: 0 });
        self.temperature.push(0);
        self.total_cloud_cover.push(0);
        self.total_precip.push(0);
        self.total_snow.push(0);
        self.vis.push(0);
        self.wind_dir.push(0);
        self.wind_spd.push(0);
    }
}

impl WxSingle {
    /// Gather the whole sample at slot `at` of a series.
    pub fn from(wx: &Wx, at: usize) -> (r: WxSingle)
        requires
            wx.wf(),
            at < wx@.len(),
        ensures
            r == wx@[at as int],
    {
        WxSingle {
            dewpoint: wx.dewpoint[at],
            gust: wx.gust[at],
            lightning: wx.lightning[at],
            new_precip_bits: wx.new_precip[at],
            precip_rate_bits: wx.precip_rate[at],
            precip_type: wx.precip_type[at].bits,
            pressure_micro: wx.pressure[at].micro,
            temperature: wx.temperature[at],
            total_cloud_cover: wx.total_cloud_cover[at],
            total_precip_bits: wx.total_precip[at],
            total_snow_bits: wx.total_snow[at],
            vis: wx.vis[at],
            wind_dir: wx.wind_dir[at],
            wind_spd: wx.wind_spd[at],
        }
    }
}

} // verus!
