//! Hardware dashboard: the disk health verdict (a healthy disk can still be flagged
//! for attention) and the disk temperature source order.

use vstd::prelude::*;

verus! {

/// NVMe health log fields the verdict reads.
#[derive(Debug, Clone, Copy)]
pub struct NvmeHealth {
    pub percentage_used: u32,
    pub media_errors: u64,
    pub available_spare: u32,
    pub available_spare_threshold: u32,
    pub temperature_c: i64,
}

/// WMI disk health fields the temperature reads.
#[derive(Debug, Clone, Copy)]
pub struct WmiHealth {
    pub temperature_c: Option<i64>,
}

/// A S.M.A.R.T. attribute (id and current value).
#[derive(Debug, Clone, Copy)]
pub struct SmartAttribute {
    pub id: u32,
    pub value: u64,
}

/// What the dashboard reads of a disk's S.M.A.R.T. view.
#[derive(Debug)]
pub struct DiskSmart {
    pub nvme_health: Option<NvmeHealth>,
    pub wmi_health: Option<WmiHealth>,
    pub attributes: Vec<SmartAttribute>,
    pub healthy: bool,
    pub detail: String,
}

/// An NVMe log that calls for attention: wear at 80 % or more, any media error, or
/// spare capacity at most twice its threshold (threshold set).
pub open spec fn nvme_risk(nv: NvmeHealth) -> bool {
    ||| nv.percentage_used >= 80
    ||| nv.media_errors > 0
    ||| (nv.available_spare_threshold > 0 && nv.available_spare <= (if nv.available_spare_threshold
        * 2 > u32::MAX { u32::MAX as int } else { nv.available_spare_threshold * 2 }))
}

/// Verdict of a disk: (healthy, healthy but needs attention, detail text).
pub fn smart_state(sv: &DiskSmart) -> (r: (bool, bool, String))
    ensures
        r.0 == sv.healthy,
        r.1 == (sv.healthy && (sv.nvme_health matches Some(nv) && nvme_risk(nv))),
        r.2 == sv.detail,
{
    let mut risk = false;
    if let Some(nv) = &sv.nvme_health {
        if nv.percentage_used >= 80 {
            risk = true;
        }
        if nv.media_errors > 0 {
            risk = true;
        }
        let t = nv.available_spare_threshold;
        let twice = if t > u32::MAX / 2 { u32::MAX } else { t * 2 };
        if t > 0 && nv.available_spare <= twice {
            risk = true;
        }
    }
    (sv.healthy, risk && sv.healthy, sv.detail.clone())
}

/// Temperature attribute ids (194, or 190 as fallback id) in the attribute list.
pub open spec fn is_temp_attr(a: SmartAttribute) -> bool {
    a.id == 194 || a.id == 190
}

/// Disk temperature in °C: the NVMe log when positive, else WMI when positive, else
/// the value of the first temperature attribute; none when there is none.
pub open spec fn disk_temp_spec(sv: DiskSmart) -> Option<int> {
    if sv.nvme_health is Some && sv.nvme_health->0.temperature_c > 0 {
        Some(sv.nvme_health->0.temperature_c as int)
    } else if sv.wmi_health is Some && sv.wmi_health->0.temperature_c is Some
        && sv.wmi_health->0.temperature_c->0 > 0 {
        Some(sv.wmi_health->0.temperature_c->0 as int)
    } else if exists|i: int| 0 <= i < sv.attributes@.len() && is_temp_attr(sv.attributes@[i]) {
        let i = choose|i: int|
            0 <= i < sv.attributes@.len() && is_temp_attr(sv.attributes@[i]) && forall|j: int|
                0 <= j < i ==> !is_temp_attr(sv.attributes@[j]);
        Some(sv.attributes@[i].value as int)
    } else {
        None
    }
}

/// The disk temperature (see `disk_temp_spec`).
pub fn disk_temp(sv: &DiskSmart) -> (r: Option<i128>)
    ensures
        match r {
            Some(t) => disk_temp_spec(*sv) == Some(t as int),
            None => disk_temp_spec(*sv) is None,
        },
{
    if let Some(nv) = &sv.nvme_health {
        if nv.temperature_c > 0 {
            return Some(nv.temperature_c as i128);
        }
    }
    if let Some(w) = &sv.wmi_health {
        if let Some(t) = w.temperature_c {
            if t > 0 {
                return Some(t as i128);
            }
        }
    }
    let mut i: usize = 0;
    while i < sv.attributes.len()
        invariant
            i <= sv.attributes@.len(),
            forall|j: int| 0 <= j < i ==> !is_temp_attr(sv.attributes@[j]),
            !(sv.nvme_health is Some && sv.nvme_health->0.temperature_c > 0),
            !(sv.wmi_health is Some && sv.wmi_health->0.temperature_c is Some
                && sv.wmi_health->0.temperature_c->0 > 0),
        decreases sv.attributes@.len() - i,
    {
        let a = sv.attributes[i];
        if a.id == 194 || a.id == 190 {
            proof {
                let k = choose|k: int|
                    0 <= k < sv.attributes@.len() && is_temp_attr(sv.attributes@[k]) && forall|j: int|
                        0 <= j < k ==> !is_temp_attr(sv.attributes@[j]);
                assert(k == i as int) by {
                    if k < i {
                    } else if k > i {
                        assert(!is_temp_attr(sv.attributes@[i as int]));
                    }
                }
            }
            return Some(a.value as i128);
        }
        i = i + 1;
    }
    None
}

/// Caption of a S.M.A.R.T. data source: `ioctl` is the full IOCTL read, `wmi` the
/// WMI fallback; any other source name is shown as it is.
pub fn source_label<'a>(source: &'a str) -> (r: &'a str)
    ensures
        r@ == (if source@ == "ioctl"@ {
            "IOCTL 全量采集"@
        } else if source@ == "wmi"@ {
            "WMI 降级采集"@
        } else {
            source@
        }),
{
    let s = String::from_str(source);
    if s == String::from_str("ioctl") {
        "IOCTL 全量采集"
    } else if s == String::from_str("wmi") {
        "WMI 降级采集"
    } else {
        source
    }
}

} // verus!
