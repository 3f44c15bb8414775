//! Toll stations (`TOLL`) and lanes (`TOLL_LANE`) as read from the rating database.
#![allow(non_camel_case_types)]

use vstd::prelude::*;
use crate::etdr_types::clone_opt_string;

verus! {

/// Toll station (table RATING_OWNER.TOLL).
#[derive(Debug, Default)]
pub struct TOLL {
    pub toll_id: i32,
    pub toll_name: String,
    pub address: String,
    pub province: String,
    pub district: String,
    pub precinct: String,
    pub toll_type: String,
    pub tell_number: String,
    pub fax: String,
    pub status: String,
    pub toll_code: String,
    pub toll_name_search: String,
    pub rate_type_parking: String,
    pub status_commercial: String,
    pub calculation_type: String,
    pub tcoc_version_id: Option<i32>,
    pub syntax_code: String,
    pub vehicle_type_profile: String,
    pub allow_same_inout: String,
    pub allow_same_inout_time: i64,
    pub latch_hour: Option<String>,
    pub boo: String,
    pub close_time_code: String,
    pub calc_type: String,
    pub sequence_type: String,
    pub sequence_apply: String,
}

/// Toll lane (table RATING_OWNER.TOLL_LANE).
#[derive(Debug, Default)]
pub struct TOLL_LANE {
    pub toll_id: i32,
    pub lane_code: i32,
    pub lane_type: String,
    pub status: String,
    pub toll_lane_id: i32,
    pub lane_name: String,
    pub free_lanes: String,
    pub free_lanes_limit: Option<i32>,
    pub free_lanes_second: String,
    pub free_toll_id: Option<i32>,
    pub dup_filter: String,
    pub free_limit_time: String,
    pub free_allow_loop: String,
    pub transit_lane: String,
    pub freeflow_lane: String,
}

impl Clone for TOLL {
    fn clone(&self) -> (r: Self)
        ensures
            r == *self,
    {
        TOLL {
            toll_id: self.toll_id,
            toll_name: self.toll_name.clone(),
            address: self.address.clone(),
            province: self.province.clone(),
            district: self.district.clone(),
            precinct: self.precinct.clone(),
            toll_type: self.toll_type.clone(),
            tell_number: self.tell_number.clone(),
            fax: self.fax.clone(),
            status: self.status.clone(),
            toll_code: self.toll_code.clone(),
            toll_name_search: self.toll_name_search.clone(),
            rate_type_parking: self.rate_type_parking.clone(),
            status_commercial: self.status_commercial.clone(),
            calculation_type: self.calculation_type.clone(),
            tcoc_version_id: self.tcoc_version_id,
            syntax_code: self.syntax_code.clone(),
            vehicle_type_profile: self.vehicle_type_profile.clone(),
            allow_same_inout: self.allow_same_inout.clone(),
            allow_same_inout_time: self.allow_same_inout_time,
            latch_hour: clone_opt_string(&self.latch_hour),
            boo: self.boo.clone(),
            close_time_code: self.close_time_code.clone(),
            calc_type: self.calc_type.clone(),
            sequence_type: self.sequence_type.clone(),
            sequence_apply: self.sequence_apply.clone(),
        }
    }
}

impl Clone for TOLL_LANE {
    fn clone(&self) -> (r: Self)
        ensures
            r == *self,
    {
        TOLL_LANE {
            toll_id: self.toll_id,
            lane_code: self.lane_code,
            lane_type: self.lane_type.clone(),
            status: self.status.clone(),
            toll_lane_id: self.toll_lane_id,
            lane_name: self.lane_name.clone(),
            free_lanes: self.free_lanes.clone(),
            free_lanes_limit: self.free_lanes_limit,
            free_lanes_second: self.free_lanes_second.clone(),
            free_toll_id: self.free_toll_id,
            dup_filter: self.dup_filter.clone(),
            free_limit_time: self.free_limit_time.clone(),
            free_allow_loop: self.free_allow_loop.clone(),
            transit_lane: self.transit_lane.clone(),
            freeflow_lane: self.freeflow_lane.clone(),
        }
    }
}

} // verus!
