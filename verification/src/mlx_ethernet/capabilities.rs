//! The device capabilities reported by the `QueryHcaCap` command, and the
//! bit fields of the output words that they are read from.

use vstd::prelude::*;

verus! {

/// Bit `n` of `word`.
pub open spec fn bit(word: u32, n: u32) -> bool {
    (word >> n) & 1 == 1
}

/// Returns bit `n` of `word`.
pub fn get_bit(word: u32, n: u32) -> (r: bool)
    requires
        n < 32,
    ensures
        r == bit(word, n),
{
    (word >> n) & 1 == 1
}

/// The words of the `QueryHcaCap` output that the capabilities are read
/// from, named after the first field each word holds.
#[derive(Debug, Clone, Copy, PartialEq, Eq, Structural)]
pub struct HCACapabilitiesLayout {
    pub cqe_version: u32,
    pub device_frequency_mhz: u32,
    pub extended_retry_count: u32,
    pub gid_table_size: u32,
    pub lag_native: u32,
    pub log_max_cq: u32,
    pub log_max_current_uc_list: u32,
    pub log_max_eq: u32,
    pub log_max_klm: u32,
    pub log_max_tis: u32,
    pub log_max_tis_per_sq: u32,
    pub log_max_wq_sz: u32,
    pub log_max_xrcd: u32,
    pub log_min_stride_sz_sq: u32,
    pub log_pg_sz: u32,
    pub log_uar_page_sz: u32,
    pub max_flow_counter_15_0: u32,
    pub num_ports: u32,
    pub pkey_table_size: u32,
    pub rc: u32,
    pub wol_p: u32,
}

/// The device capabilities, as extracted from an `HCACapabilitiesLayout`.
#[derive(Debug, Clone, Copy, PartialEq, Eq, Structural)]
pub struct HCACapabilities {
    pub log_max_cq_sz: u8,
    pub log_max_cq: u8,
    pub log_max_eq_sz: u8,
    pub log_max_mkey: u8,
    pub log_max_eq: u8,
    pub max_indirection: u8,
    pub log_max_mrw_sz: u8,
    pub log_max_klm_list_size: u8,
    pub end_pad: bool,
    pub start_pad: bool,
    pub cache_line_128byte: bool,
    pub vport_counters: bool,
    pub vport_group_manager: bool,
    pub nic_flow_table: bool,
    pub port_type: u8,
    pub num_ports: u8,
    pub log_max_msg: u8,
    pub max_tc: u8,
    pub cqe_version: u8,
    pub cmdif_checksum: u8,
    pub wq_signature: bool,
    pub sctr_data_cqe: bool,
    pub eth_net_offloads: bool,
    pub cq_oi: bool,
    pub cq_resize: bool,
    pub cq_moderation: bool,
    pub cq_eq_remap: bool,
    pub scqe_break_moderation: bool,
    pub cq_period_start_from_cqe: bool,
    pub imaicl: bool,
    pub xrc: bool,
    pub ud: bool,
    pub uc: bool,
    pub rc: bool,
    pub uar_sz: u8,
    pub log_pg_sz: u8,
    pub bf: bool,
    pub driver_version: bool,
    pub pad_tx_eth_packet: bool,
    pub log_bf_reg_size: u8,
    pub log_max_transport_domain: u8,
    pub log_max_pd: u8,
    pub max_flow_counter: u16,
    pub log_max_rq: u8,
    pub log_max_sq: u8,
    pub log_max_tir: u8,
    pub log_max_tis: u8,
    pub basic_cyclic_rcv_wqe: bool,
    pub log_max_rmp: u8,
    pub log_max_rqt: u8,
    pub log_max_rqt_size: u8,
    pub log_max_tis_per_sq: u8,
    pub log_max_stride_sz_rq: u8,
    pub log_min_stride_sz_rq: u8,
    pub log_max_stride_sz_sq: u8,
    pub log_min_stride_sz_sq: u8,
    pub log_max_wq_sz: u8,
    pub log_max_vlan_list: u8,
    pub log_max_current_mc_list: u8,
    pub log_max_current_uc_list: u8,
    pub log_max_l2_table: u8,
    pub log_uar_page_sz: u16,
    pub device_frequency_mhz: u32,
}

impl HCACapabilitiesLayout {
    /// The capability words among the 64 words `words` of the command's
    /// output mailbox.
    pub open spec fn layout_of_words(words: Seq<u32>) -> Self {
        HCACapabilitiesLayout {
            cqe_version: words[15],
            device_frequency_mhz: words[38],
            extended_retry_count: words[16],
            gid_table_size: words[11],
            lag_native: words[19],
            log_max_cq: words[6],
            log_max_current_uc_list: words[31],
            log_max_eq: words[7],
            log_max_klm: words[8],
            log_max_tis: words[27],
            log_max_tis_per_sq: words[28],
            log_max_wq_sz: words[30],
            log_max_xrcd: words[25],
            log_min_stride_sz_sq: words[29],
            log_pg_sz: words[18],
            log_uar_page_sz: words[36],
            max_flow_counter_15_0: words[26],
            num_ports: words[13],
            pkey_table_size: words[12],
            rc: words[17],
            wol_p: words[14],
        }
    }

    /// Picks the capability words out of the 64 words of the command's output
    /// mailbox, in the order of the device's layout.
    pub fn from_words(words: &Vec<u32>) -> (r: Self)
        requires
            words.len() == 64,
        ensures
            r == Self::layout_of_words(words@),
            r.cqe_version == words[15],
            r.device_frequency_mhz == words[38],
            r.extended_retry_count == words[16],
            r.gid_table_size == words[11],
            r.lag_native == words[19],
            r.log_max_cq == words[6],
            r.log_max_current_uc_list == words[31],
            r.log_max_eq == words[7],
            r.log_max_klm == words[8],
            r.log_max_tis == words[27],
            r.log_max_tis_per_sq == words[28],
            r.log_max_wq_sz == words[30],
            r.log_max_xrcd == words[25],
            r.log_min_stride_sz_sq == words[29],
            r.log_pg_sz == words[18],
            r.log_uar_page_sz == words[36],
            r.max_flow_counter_15_0 == words[26],
            r.num_ports == words[13],
            r.pkey_table_size == words[12],
            r.rc == words[17],
            r.wol_p == words[14],
    {
        HCACapabilitiesLayout {
            cqe_version: words[15],
            device_frequency_mhz: words[38],
            extended_retry_count: words[16],
            gid_table_size: words[11],
            lag_native: words[19],
            log_max_cq: words[6],
            log_max_current_uc_list: words[31],
            log_max_eq: words[7],
            log_max_klm: words[8],
            log_max_tis: words[27],
            log_max_tis_per_sq: words[28],
            log_max_wq_sz: words[30],
            log_max_xrcd: words[25],
            log_min_stride_sz_sq: words[29],
            log_pg_sz: words[18],
            log_uar_page_sz: words[36],
            max_flow_counter_15_0: words[26],
            num_ports: words[13],
            pkey_table_size: words[12],
            rc: words[17],
            wol_p: words[14],
        }
    }

    /// The capabilities held in these words.
    pub open spec fn capabilities(self) -> HCACapabilities {
        let layout = self;
        HCACapabilities {
            log_max_cq_sz: ((layout.log_max_cq >> 16) & 0xFF) as u8,
            log_max_cq: (layout.log_max_cq & 0x1F) as u8,
            log_max_eq_sz: ((layout.log_max_eq >> 24) & 0xFF) as u8,
            log_max_mkey: ((layout.log_max_eq >> 16) & 0x3F) as u8,
            log_max_eq: (layout.log_max_eq & 0xF) as u8,
            max_indirection: ((layout.log_max_klm >> 24) & 0xFF) as u8,
            log_max_mrw_sz: ((layout.log_max_klm >> 16) & 0x7F) as u8,
            log_max_klm_list_size: (layout.log_max_klm & 0x3F) as u8,
            end_pad: bit(layout.gid_table_size, 31),
            start_pad: bit(layout.gid_table_size, 28),
            cache_line_128byte: bit(layout.gid_table_size, 27),
            vport_counters: bit(layout.pkey_table_size, 30),
            vport_group_manager: bit(layout.num_ports, 31),
            nic_flow_table: bit(layout.num_ports, 25),
            port_type: ((layout.num_ports >> 8) & 0x3) as u8,
            num_ports: (layout.num_ports & 0xFF) as u8,
            log_max_msg: ((layout.wol_p >> 24) & 0x1F) as u8,
            max_tc: ((layout.wol_p >> 16) & 0xF) as u8,
            cqe_version: (layout.cqe_version & 0xF) as u8,
            cmdif_checksum: ((layout.extended_retry_count >> 14) & 0x3) as u8,
            wq_signature: bit(layout.extended_retry_count, 11),
            sctr_data_cqe: bit(layout.extended_retry_count, 10),
            eth_net_offloads: bit(layout.extended_retry_count, 3),
            cq_oi: bit(layout.rc, 31),
            cq_resize: bit(layout.rc, 30),
            cq_moderation: bit(layout.rc, 29),
            cq_eq_remap: bit(layout.rc, 25),
            scqe_break_moderation: bit(layout.rc, 21),
            cq_period_start_from_cqe: bit(layout.rc, 20),
            imaicl: bit(layout.rc, 14),
            xrc: bit(layout.rc, 3),
            ud: bit(layout.rc, 2),
            uc: bit(layout.rc, 1),
            rc: bit(layout.rc, 0),
            uar_sz: ((layout.log_pg_sz >> 16) & 0x3F) as u8,
            log_pg_sz: (layout.log_pg_sz & 0xFF) as u8,
            bf: bit(layout.lag_native, 31),
            driver_version: bit(layout.lag_native, 30),
            pad_tx_eth_packet: bit(layout.lag_native, 29),
            log_bf_reg_size: ((layout.lag_native >> 16) & 0x1F) as u8,
            log_max_transport_domain: ((layout.log_max_xrcd >> 24) & 0x1F) as u8,
            log_max_pd: ((layout.log_max_xrcd >> 16) & 0x1F) as u8,
            max_flow_counter: (layout.max_flow_counter_15_0 & 0xFFFF) as u16,
            log_max_rq: ((layout.log_max_tis >> 24) & 0x1F) as u8,
            log_max_sq: ((layout.log_max_tis >> 16) & 0x1F) as u8,
            log_max_tir: ((layout.log_max_tis >> 8) & 0x1F) as u8,
            log_max_tis: (layout.log_max_tis & 0x1F) as u8,
            basic_cyclic_rcv_wqe: bit(layout.log_max_tis_per_sq, 31),
            log_max_rmp: ((layout.log_max_tis_per_sq >> 24) & 0x1F) as u8,
            log_max_rqt: ((layout.log_max_tis_per_sq >> 16) & 0x1F) as u8,
            log_max_rqt_size: ((layout.log_max_tis_per_sq >> 8) & 0x1F) as u8,
            log_max_tis_per_sq: (layout.log_max_tis_per_sq & 0x1F) as u8,
            log_max_stride_sz_rq: ((layout.log_min_stride_sz_sq >> 24) & 0x1F) as u8,
            log_min_stride_sz_rq: ((layout.log_min_stride_sz_sq >> 16) & 0x1F) as u8,
            log_max_stride_sz_sq: ((layout.log_min_stride_sz_sq >> 8) & 0x1F) as u8,
            log_min_stride_sz_sq: (layout.log_min_stride_sz_sq & 0x1F) as u8,
            log_max_wq_sz: (layout.log_max_wq_sz & 0x1F) as u8,
            log_max_vlan_list: ((layout.log_max_current_uc_list >> 16) & 0x1F) as u8,
            log_max_current_mc_list: ((layout.log_max_current_uc_list >> 8) & 0x1F) as u8,
            log_max_current_uc_list: (layout.log_max_current_uc_list & 0x1F) as u8,
            log_max_l2_table: ((layout.log_uar_page_sz >> 24) & 0x1F) as u8,
            log_uar_page_sz: (layout.log_uar_page_sz & 0xFFFF) as u16,
            device_frequency_mhz: layout.device_frequency_mhz,
        }
    }

    /// Extracts the capabilities from their bit fields.
    pub fn get_capabilities(&self) -> (r: HCACapabilities)
        ensures
            r == self.capabilities(),
    {
        let layout = self;
        HCACapabilities {
            log_max_cq_sz: ((layout.log_max_cq >> 16) & 0xFF) as u8,
            log_max_cq: (layout.log_max_cq & 0x1F) as u8,
            log_max_eq_sz: ((layout.log_max_eq >> 24) & 0xFF) as u8,
            log_max_mkey: ((layout.log_max_eq >> 16) & 0x3F) as u8,
            log_max_eq: (layout.log_max_eq & 0xF) as u8,
            max_indirection: ((layout.log_max_klm >> 24) & 0xFF) as u8,
            log_max_mrw_sz: ((layout.log_max_klm >> 16) & 0x7F) as u8,
            log_max_klm_list_size: (layout.log_max_klm & 0x3F) as u8,
            end_pad: get_bit(layout.gid_table_size, 31),
            start_pad: get_bit(layout.gid_table_size, 28),
            cache_line_128byte: get_bit(layout.gid_table_size, 27),
            vport_counters: get_bit(layout.pkey_table_size, 30),
            vport_group_manager: get_bit(layout.num_ports, 31),
            nic_flow_table: get_bit(layout.num_ports, 25),
            port_type: ((layout.num_ports >> 8) & 0x3) as u8,
            num_ports: (layout.num_ports & 0xFF) as u8,
            log_max_msg: ((layout.wol_p >> 24) & 0x1F) as u8,
            max_tc: ((layout.wol_p >> 16) & 0xF) as u8,
            cqe_version: (layout.cqe_version & 0xF) as u8,
            cmdif_checksum: ((layout.extended_retry_count >> 14) & 0x3) as u8,
            wq_signature: get_bit(layout.extended_retry_count, 11),
            sctr_data_cqe: get_bit(layout.extended_retry_count, 10),
            eth_net_offloads: get_bit(layout.extended_retry_count, 3),
            cq_oi: get_bit(layout.rc, 31),
            cq_resize: get_bit(layout.rc, 30),
            cq_moderation: get_bit(layout.rc, 29),
            cq_eq_remap: get_bit(layout.rc, 25),
            scqe_break_moderation: get_bit(layout.rc, 21),
            cq_period_start_from_cqe: get_bit(layout.rc, 20),
            imaicl: get_bit(layout.rc, 14),
            xrc: get_bit(layout.rc, 3),
            ud: get_bit(layout.rc, 2),
            uc: get_bit(layout.rc, 1),
            rc: get_bit(layout.rc, 0),
            uar_sz: ((layout.log_pg_sz >> 16) & 0x3F) as u8,
            log_pg_sz: (layout.log_pg_sz & 0xFF) as u8,
            bf: get_bit(layout.lag_native, 31),
            driver_version: get_bit(layout.lag_native, 30),
            pad_tx_eth_packet: get_bit(layout.lag_native, 29),
            log_bf_reg_size: ((layout.lag_native >> 16) & 0x1F) as u8,
            log_max_transport_domain: ((layout.log_max_xrcd >> 24) & 0x1F) as u8,
            log_max_pd: ((layout.log_max_xrcd >> 16) & 0x1F) as u8,
            max_flow_counter: (layout.max_flow_counter_15_0 & 0xFFFF) as u16,
            log_max_rq: ((layout.log_max_tis >> 24) & 0x1F) as u8,
            log_max_sq: ((layout.log_max_tis >> 16) & 0x1F) as u8,
            log_max_tir: ((layout.log_max_tis >> 8) & 0x1F) as u8,
            log_max_tis: (layout.log_max_tis & 0x1F) as u8,
            basic_cyclic_rcv_wqe: get_bit(layout.log_max_tis_per_sq, 31),
            log_max_rmp: ((layout.log_max_tis_per_sq >> 24) & 0x1F) as u8,
            log_max_rqt: ((layout.log_max_tis_per_sq >> 16) & 0x1F) as u8,
            log_max_rqt_size: ((layout.log_max_tis_per_sq >> 8) & 0x1F) as u8,
            log_max_tis_per_sq: (layout.log_max_tis_per_sq & 0x1F) as u8,
            log_max_stride_sz_rq: ((layout.log_min_stride_sz_sq >> 24) & 0x1F) as u8,
            log_min_stride_sz_rq: ((layout.log_min_stride_sz_sq >> 16) & 0x1F) as u8,
            log_max_stride_sz_sq: ((layout.log_min_stride_sz_sq >> 8) & 0x1F) as u8,
            log_min_stride_sz_sq: (layout.log_min_stride_sz_sq & 0x1F) as u8,
            log_max_wq_sz: (layout.log_max_wq_sz & 0x1F) as u8,
            log_max_vlan_list: ((layout.log_max_current_uc_list >> 16) & 0x1F) as u8,
            log_max_current_mc_list: ((layout.log_max_current_uc_list >> 8) & 0x1F) as u8,
            log_max_current_uc_list: (layout.log_max_current_uc_list & 0x1F) as u8,
            log_max_l2_table: ((layout.log_uar_page_sz >> 24) & 0x1F) as u8,
            log_uar_page_sz: (layout.log_uar_page_sz & 0xFFFF) as u16,
            device_frequency_mhz: layout.device_frequency_mhz,
        }
    }
}

} // verus!
