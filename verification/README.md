# timezoners

The decision logic of a GTK time-zone selector widget, verified with Verus.

A selector shows one day of a base time zone on a slider, as another zone's
wall clock sees it. The library computes:

- `range`: the base day's span (00:00:00 to 23:59:59 on the base zone's clock)
  and the same instants in the selected zone, with whether each end stays on
  the base date;
- `clock`: the slider's end labels ("09:00 am", "* 08:59 am"), the text of the
  time picked on the slider (quarter-hour steps, with "<= " and " =>" marking
  the neighbouring days), and where midday falls on the slider;
- `search`: which rows of the zone list the search text lets through;
- `selector`: the widget's messages as a state machine, returning the actions
  for the widget layer to carry out;
- `catalogue`: the zone list offered (every name chrono-tz knows, once, sorted),
  and the proof that it is determined;
- `civil`: plain date, time and zoned-instant values;
- `tzdb`: the calls into `chrono` and `chrono-tz`, as trusted items.

`app/` holds the relm/GTK component that reads the widgets, feeds the library
its messages and carries out the actions it returns.
